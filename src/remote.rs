//! Plain-value images of what the remote distribution service sends and
//! expects. The transport layer fills these from the wire format.

use vstd::prelude::*;
use crate::text::join2;

verus! {

/// A license blob offered by the service for one item.
pub struct SinfEntry {
    pub id: Option<i64>,
    pub sinf: Option<String>,
}

/// Descriptive fields of an item, as the service reports them.
pub struct ItemMetadata {
    pub bundle_display_name: Option<String>,
    pub bundle_short_version_string: Option<String>,
    pub bundle_id: Option<String>,
    pub artwork_url_60: Option<String>,
    pub artwork_url_512: Option<String>,
    pub artwork_url_100: Option<String>,
    pub artwork_url: Option<String>,
    pub artist_name: Option<String>,
}

/// The first entry of the service's song list.
pub struct SongItem {
    pub url: Option<String>,
    pub metadata: Option<ItemMetadata>,
    pub sinfs: Vec<SinfEntry>,
}

/// A reply of the entitlement or content-resolution call. A reply that
/// carries a `failure_type` is a failure; the other text fields explain it.
pub struct StoreResponse {
    pub failure_type: Option<String>,
    pub customer_message: Option<String>,
    pub message: Option<String>,
    pub song: Option<SongItem>,
}

/// Session artifacts attached to entitlement and content calls.
pub struct AuthInfo {
    pub ds_person_id: Option<String>,
    pub password_token: Option<String>,
    pub display_name: Option<String>,
    pub email: Option<String>,
}

/// The form of one native authentication request.
pub struct AuthRequest {
    pub apple_id: String,
    pub attempt: u32,
    pub create_session: bool,
    pub guid: String,
    pub password: String,
    pub rmp: u32,
    pub why: String,
}

/// The fields of an authentication reply that the service may send.
pub struct AuthResponse {
    pub failure_type: Option<String>,
    pub customer_message: Option<String>,
    pub ds_person_id: Option<String>,
    pub password_token: Option<String>,
    pub display_name: Option<String>,
}

impl StoreResponse {
    /// The service granted the request: it reported no failure type.
    pub open spec fn spec_granted(&self) -> bool {
        self.failure_type is None
    }

    #[verifier::when_used_as_spec(spec_granted)]
    pub fn granted(&self) -> (r: bool)
        ensures
            r == self.spec_granted(),
    {
        self.failure_type.is_none()
    }
}

/// Retry counter sent with an authentication request: a request that carries
/// a second-factor code is the retry.
pub open spec fn auth_attempt(has_mfa: bool) -> u32 {
    if has_mfa { 2 } else { 4 }
}

impl AuthRequest {
    /// Builds the request for `email`; a second-factor code is appended to the
    /// password, as the remote protocol expects.
    pub fn new(email: &str, password: &str, mfa: Option<&str>, guid: &str) -> (r: AuthRequest)
        ensures
            r.apple_id@ == email@,
            r.attempt == auth_attempt(mfa is Some),
            r.create_session,
            r.guid@ == guid@,
            r.password@ == password@ + match mfa {
                Some(code) => code@,
                None => Seq::<char>::empty(),
            },
            r.rmp == 0,
            r.why@ == "signIn"@,
    {
        let password = match mfa {
            Some(code) => join2(password, code),
            None => String::from_str(password),
        };
        proof {
            assert(password@ == password@ + Seq::<char>::empty());
        }
        AuthRequest {
            apple_id: String::from_str(email),
            attempt: if mfa.is_some() { 2 } else { 4 },
            create_session: true,
            guid: String::from_str(guid),
            password,
            rmp: 0,
            why: String::from_str("signIn"),
        }
    }
}

impl AuthResponse {
    /// The session descriptor of a successful reply for `email`, or `None`
    /// when the reply reports a failure.
    pub fn auth_info(&self, email: &str) -> (r: Option<AuthInfo>)
        ensures
            r is Some <==> self.failure_type is None,
            r matches Some(info) ==> {
                &&& info.ds_person_id == self.ds_person_id
                &&& info.password_token == self.password_token
                &&& info.display_name == self.display_name
                &&& info.email matches Some(e) && e@ == email@
            },
    {
        if self.failure_type.is_some() {
            return None;
        }
        Some(
            AuthInfo {
                ds_person_id: self.ds_person_id.clone(),
                password_token: self.password_token.clone(),
                display_name: self.display_name.clone(),
                email: Some(String::from_str(email)),
            },
        )
    }
}

/// The user agent of the configuration tool that the client presents as.
pub open spec fn user_agent() -> Seq<char> {
    "Configurator/2.15 (Macintosh; OS X 11.0.0; 16G29) AppleWebKit/2603.3.8"@
}

pub open spec fn pairs_view(v: Seq<(String, String)>) -> Seq<(Seq<char>, Seq<char>)> {
    v.map_values(|p: (String, String)| (p.0@, p.1@))
}

pub open spec fn opt_pair(k: Seq<char>, v: Option<String>) -> Seq<(Seq<char>, Seq<char>)> {
    match v {
        Some(s) => seq![(k, s@)],
        None => Seq::<(Seq<char>, Seq<char>)>::empty(),
    }
}

/// Headers of every request to the service; a session adds its person id
/// twice and its password token.
pub open spec fn spec_store_headers(auth: Option<AuthInfo>) -> Seq<(Seq<char>, Seq<char>)> {
    let base = seq![
        ("User-Agent"@, user_agent()),
        ("Content-Type"@, "application/x-www-form-urlencoded"@),
    ];
    match auth {
        Some(a) => base + opt_pair("X-Dsid"@, a.ds_person_id) + opt_pair(
            "iCloud-DSID"@,
            a.ds_person_id,
        ) + opt_pair("X-Token"@, a.password_token),
        None => base,
    }
}

/// Form of the purchase call for item `app_id`, optionally at one version.
pub open spec fn spec_purchase_form(guid: Seq<char>, app_id: Seq<char>, version: Option<Seq<char>>) -> Seq<
    (Seq<char>, Seq<char>),
> {
    seq![("guid"@, guid), ("salableAdamId"@, app_id)] + match version {
        Some(v) => seq![("externalVersionId"@, v), ("appExtVrsId"@, v)],
        None => Seq::<(Seq<char>, Seq<char>)>::empty(),
    } + seq![("pricingParameters"@, "STDQ"@)]
}

/// Form of the content-resolution call for item `app_id`, optionally at one
/// version.
pub open spec fn spec_download_form(guid: Seq<char>, app_id: Seq<char>, version: Option<Seq<char>>) -> Seq<
    (Seq<char>, Seq<char>),
> {
    seq![("creditDisplay"@, Seq::<char>::empty()), ("guid"@, guid), ("salableAdamId"@, app_id)]
        + match version {
        Some(v) => seq![("externalVersionId"@, v)],
        None => Seq::<(Seq<char>, Seq<char>)>::empty(),
    }
}

fn push_pair(v: &mut Vec<(String, String)>, k: &str, value: &str)
    ensures
        pairs_view(final(v)@) == pairs_view(old(v)@).push((k@, value@)),
{
    v.push((String::from_str(k), String::from_str(value)));
    proof {
        assert(pairs_view(final(v)@) =~= pairs_view(old(v)@).push((k@, value@)));
    }
}

fn push_opt_pair(v: &mut Vec<(String, String)>, k: &str, value: &Option<String>)
    ensures
        pairs_view(final(v)@) == pairs_view(old(v)@) + opt_pair(k@, *value),
{
    match value {
        Some(s) => push_pair(v, k, s.as_str()),
        None => {
            proof {
                assert(pairs_view(old(v)@) + opt_pair(k@, *value) =~= pairs_view(old(v)@));
            }
        },
    }
}

/// Headers of a request to the service, with the session's if there is one.
pub fn store_headers(auth: Option<&AuthInfo>) -> (r: Vec<(String, String)>)
    ensures
        pairs_view(r@) == spec_store_headers(
            match auth {
                Some(a) => Some(*a),
                None => None,
            },
        ),
{
    let mut v: Vec<(String, String)> = Vec::new();
    push_pair(
        &mut v,
        "User-Agent",
        "Configurator/2.15 (Macintosh; OS X 11.0.0; 16G29) AppleWebKit/2603.3.8",
    );
    push_pair(&mut v, "Content-Type", "application/x-www-form-urlencoded");
    match auth {
        Some(a) => {
            push_opt_pair(&mut v, "X-Dsid", &a.ds_person_id);
            push_opt_pair(&mut v, "iCloud-DSID", &a.ds_person_id);
            push_opt_pair(&mut v, "X-Token", &a.password_token);
        },
        None => {},
    }
    proof {
        assert(pairs_view(v@) =~= spec_store_headers(
            match auth {
                Some(a) => Some(*a),
                None => None,
            },
        ));
    }
    v
}

/// Form of the purchase call.
pub fn purchase_form(guid: &str, app_id: &str, version: Option<&str>) -> (r: Vec<(String, String)>)
    ensures
        pairs_view(r@) == spec_purchase_form(
            guid@,
            app_id@,
            match version {
                Some(x) => Some(x@),
                None => None,
            },
        ),
{
    let mut v: Vec<(String, String)> = Vec::new();
    push_pair(&mut v, "guid", guid);
    push_pair(&mut v, "salableAdamId", app_id);
    match version {
        Some(x) => {
            push_pair(&mut v, "externalVersionId", x);
            push_pair(&mut v, "appExtVrsId", x);
        },
        None => {},
    }
    push_pair(&mut v, "pricingParameters", "STDQ");
    proof {
        assert(pairs_view(v@) =~= spec_purchase_form(
            guid@,
            app_id@,
            match version {
                Some(x) => Some(x@),
                None => None,
            },
        ));
    }
    v
}

/// Form of the content-resolution call.
pub fn download_form(guid: &str, app_id: &str, version: Option<&str>) -> (r: Vec<(String, String)>)
    ensures
        pairs_view(r@) == spec_download_form(
            guid@,
            app_id@,
            match version {
                Some(x) => Some(x@),
                None => None,
            },
        ),
{
    let mut v: Vec<(String, String)> = Vec::new();
    proof {
        reveal_strlit("");
        assert(""@ =~= Seq::<char>::empty());
    }
    push_pair(&mut v, "creditDisplay", "");
    push_pair(&mut v, "guid", guid);
    push_pair(&mut v, "salableAdamId", app_id);
    match version {
        Some(x) => push_pair(&mut v, "externalVersionId", x),
        None => {},
    }
    proof {
        assert(pairs_view(v@) =~= spec_download_form(
            guid@,
            app_id@,
            match version {
                Some(x) => Some(x@),
                None => None,
            },
        ));
    }
    v
}

} // verus!
