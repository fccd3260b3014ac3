//! The archive signer: it finds the application bundle in a package, reads
//! the manifest that names the license slot, and rewrites the package with
//! the license blob in that slot and an account-metadata descriptor at the
//! top level.

use vstd::prelude::*;
use vstd::string::StrSliceExecFns;
use crate::archive::{
    entries_view, entry_view, opt_text_view, plist_dict, plist_dict_of, plist_field_view, plist_xml,
    plist_xml_of, zip_add, zip_archive_of, zip_data, zip_entry, zip_entry_count, zip_finish,
    zip_names, zip_pending, zip_writable, zip_writer, ArchiveEntry, EntryView, PlistField,
};
use crate::codec::{base64_decode, base64_decoded};
use crate::remote::{ItemMetadata, SinfEntry, SongItem};
use crate::text::{contains, ends_with, join2, seq_contains, starts_with};

verus! {

/// Why an archive could not be signed.
#[derive(Debug, Clone, Copy, PartialEq, Eq, Structural)]
pub enum SignError {
    /// No license blob is available for the item.
    InvalidSignature,
    /// The package is no readable archive, or it holds no single bundle.
    MalformedArchive,
    /// The bundle's manifest is missing or holds no usable dictionary.
    MalformedManifest,
    /// The manifest names no license slot.
    MissingLicenseSlot,
    /// The license blob is not valid base64.
    MalformedLicense,
    /// The rewritten archive could not be produced.
    WriteFailed,
}

/// The human-readable description of a signing failure.
pub open spec fn sign_error_text(e: SignError) -> Seq<char> {
    match e {
        SignError::InvalidSignature => "Invalid signature"@,
        SignError::MalformedArchive => "Could not find app bundle"@,
        SignError::MalformedManifest => "Invalid manifest format"@,
        SignError::MissingLicenseSlot => "Invalid signature: no SinfPaths found"@,
        SignError::MalformedLicense => "Invalid signature encoding"@,
        SignError::WriteFailed => "Failed to write the signed archive"@,
    }
}

impl SignError {
    /// A human-readable description of the failure.
    pub fn message(&self) -> (r: String)
        ensures
            r@ == sign_error_text(*self),
    {
        match self {
            SignError::InvalidSignature => String::from_str("Invalid signature"),
            SignError::MalformedArchive => String::from_str("Could not find app bundle"),
            SignError::MalformedManifest => String::from_str("Invalid manifest format"),
            SignError::MissingLicenseSlot => String::from_str(
                "Invalid signature: no SinfPaths found",
            ),
            SignError::MalformedLicense => String::from_str("Invalid signature encoding"),
            SignError::WriteFailed => String::from_str("Failed to write the signed archive"),
        }
    }
}

/// Descriptive fields written into the package's metadata descriptor.
pub struct SignatureMetadata {
    pub bundle_display_name: Option<String>,
    pub bundle_short_version_string: Option<String>,
    pub bundle_id: Option<String>,
    pub artwork_url: Option<String>,
    pub artist_name: Option<String>,
    pub apple_id: Option<String>,
    pub user_name: Option<String>,
}

/// A license blob and its slot number.
pub struct Sinf {
    pub id: i32,
    pub sinf: String,
}

/// A package being signed for one account.
pub struct SignatureClient {
    archive: Vec<u8>,
    filename: String,
    metadata: SignatureMetadata,
    signature: Option<Sinf>,
    email: String,
}

/// Name of the top-level metadata descriptor.
pub open spec fn metadata_entry_name() -> Seq<char> {
    "iTunesMetadata.plist"@
}

/// A top-level bundle directory: `Payload/<name>.app/` with a non-empty
/// `<name>` that holds no slash.
pub open spec fn is_bundle_dir(n: Seq<char>) -> bool {
    &&& n.len() > 13
    &&& n.subrange(0, 8) == "Payload/"@
    &&& n.subrange(n.len() - 5, n.len() as int) == ".app/"@
    &&& !seq_contains(n.subrange(8, n.len() - 5), "/"@)
}

/// The names of the bundle directories among the members, in order.
pub open spec fn bundle_dirs(s: Seq<EntryView>) -> Seq<Seq<char>>
    decreases s.len(),
{
    if s.len() == 0 {
        Seq::<Seq<char>>::empty()
    } else if is_bundle_dir(s.last().0) {
        bundle_dirs(s.drop_last()).push(s.last().0)
    } else {
        bundle_dirs(s.drop_last())
    }
}

/// The contents of the last member named `name`.
pub open spec fn last_named(s: Seq<EntryView>, name: Seq<char>) -> Option<Seq<u8>>
    decreases s.len(),
{
    if s.len() == 0 {
        None
    } else if s.last().0 == name {
        Some(s.last().1)
    } else {
        last_named(s.drop_last(), name)
    }
}

/// The members other than those named `name`, in order.
pub open spec fn without(s: Seq<EntryView>, name: Seq<char>) -> Seq<EntryView>
    decreases s.len(),
{
    if s.len() == 0 {
        s
    } else if s.last().0 == name {
        without(s.drop_last(), name)
    } else {
        without(s.drop_last(), name).push(s.last())
    }
}

/// The members with every one named `name` replaced by a single last member
/// holding `data`.
pub open spec fn replaced(s: Seq<EntryView>, name: Seq<char>, data: Seq<u8>) -> Seq<EntryView> {
    without(s, name).push((name, data))
}

/// The first license path that the manifest dictionary lists under
/// `SinfPaths`.
pub open spec fn sinf_path_in(d: Seq<PlistField>) -> Option<Seq<char>>
    decreases d.len(),
{
    if d.len() == 0 {
        None
    } else if d[0].0 == "SinfPaths"@ {
        match d[0].1 {
            Some(a) => if a.len() > 0 {
                a[0]
            } else {
                None
            },
            None => None,
        }
    } else {
        sinf_path_in(d.drop_first())
    }
}

/// Path of the manifest inside the bundle directory `bundle`.
pub open spec fn manifest_path(bundle: Seq<char>) -> Seq<char> {
    bundle + "SC_Info/Manifest.plist"@
}

/// Where the license goes: the bundle directory followed by the first path
/// of the manifest's `SinfPaths`.
pub open spec fn license_slot(s: Seq<EntryView>) -> Seq<char> {
    let b = bundle_dirs(s)[0];
    b + sinf_path_in(plist_dict_of(last_named(s, manifest_path(b))->0)->0)->0
}

/// The members after signing with the base64 license `token`, or why that
/// is impossible.
pub open spec fn signed_entries(s: Seq<EntryView>, token: Seq<char>) -> Result<
    Seq<EntryView>,
    SignError,
> {
    let dirs = bundle_dirs(s);
    if dirs.len() != 1 {
        Err(SignError::MalformedArchive)
    } else {
        match last_named(s, manifest_path(dirs[0])) {
            None => Err(SignError::MalformedManifest),
            Some(m) => match plist_dict_of(m) {
                None => Err(SignError::MalformedManifest),
                Some(d) => if d.len() == 0 {
                    Err(SignError::MalformedManifest)
                } else {
                    match sinf_path_in(d) {
                        None => Err(SignError::MissingLicenseSlot),
                        Some(p) => match base64_decoded(token) {
                            None => Err(SignError::MalformedLicense),
                            Some(bytes) => Ok(replaced(s, dirs[0] + p, bytes)),
                        },
                    }
                },
            },
        }
    }
}

/// The members of an archive, when every one of them can be read.
pub open spec fn zip_entries_of(a: Seq<u8>) -> Option<Seq<EntryView>> {
    match zip_names(a) {
        Some(ns) => if forall|i: int| 0 <= i < ns.len() ==> #[trigger] zip_data(a, i) is Some {
            Some(Seq::new(ns.len(), |i: int| (ns[i], zip_data(a, i)->0)))
        } else {
            None
        },
        None => None,
    }
}

/// The optional fields of the descriptor that are present, in the order
/// in which the descriptor lists them.
pub open spec fn optional_pairs(m: SignatureMetadata) -> Seq<(Seq<char>, Seq<char>)> {
    let f = |k: Seq<char>, v: Option<String>|
        match v {
            Some(s) => seq![(k, s@)],
            None => Seq::<(Seq<char>, Seq<char>)>::empty(),
        };
    f("bundleDisplayName"@, m.bundle_display_name) + f(
        "bundleShortVersionString"@,
        m.bundle_short_version_string,
    ) + f("bundleId"@, m.bundle_id) + f("artworkUrl"@, m.artwork_url) + f(
        "artistName"@,
        m.artist_name,
    )
}

/// The key-value pairs of the metadata descriptor for the account `email`.
pub open spec fn metadata_pairs(m: SignatureMetadata, email: Seq<char>) -> Seq<
    (Seq<char>, Seq<char>),
> {
    optional_pairs(m) + seq![("apple-id"@, email), ("userName"@, email)]
}

/// The license text of the first blob numbered zero, or the empty text when
/// that blob carries none.
pub open spec fn first_sinf(s: Seq<SinfEntry>) -> Option<Seq<char>>
    decreases s.len(),
{
    if s.len() == 0 {
        None
    } else if s[0].id == Some(0i64) {
        Some(
            match s[0].sinf {
                Some(t) => t@,
                None => Seq::<char>::empty(),
            },
        )
    } else {
        first_sinf(s.drop_first())
    }
}

/// The first of the artwork addresses that is present, from the smallest.
pub open spec fn artwork_of(m: ItemMetadata) -> Option<String> {
    match m.artwork_url_60 {
        Some(u) => Some(u),
        None => match m.artwork_url_512 {
            Some(u) => Some(u),
            None => m.artwork_url_100,
        },
    }
}

fn clone_opt(x: &Option<String>) -> (r: Option<String>)
    ensures
        opt_text_view(r) == opt_text_view(*x),
{
    match x {
        Some(s) => Some(s.clone()),
        None => None,
    }
}

/// Whether `name` is a top-level bundle directory `Payload/<name>.app/`.
pub fn bundle_dir_name(name: &str) -> (r: bool)
    ensures
        r == is_bundle_dir(name@),
{
    proof {
        reveal_strlit("Payload/");
        reveal_strlit(".app/");
    }
    let len = name.unicode_len();
    if len <= 13 {
        return false;
    }
    if !starts_with(name, "Payload/") || !ends_with(name, ".app/") {
        return false;
    }
    let middle = name.substring_char(8, len - 5);
    !contains(middle, "/")
}

/// The single bundle directory of the members.
pub fn find_bundle(entries: &Vec<ArchiveEntry>) -> (r: Result<String, SignError>)
    ensures
        bundle_dirs(entries_view(entries@)).len() == 1 ==> (r matches Ok(b) && b@ == bundle_dirs(
            entries_view(entries@),
        )[0]),
        bundle_dirs(entries_view(entries@)).len() != 1 ==> r == Err::<String, SignError>(
            SignError::MalformedArchive,
        ),
{
    let ghost s = entries_view(entries@);
    let mut found: Option<String> = None;
    let mut more = false;
    let mut i: usize = 0;
    while i < entries.len()
        invariant
            s == entries_view(entries@),
            i <= entries@.len(),
            found is None <==> bundle_dirs(s.subrange(0, i as int)).len() == 0,
            found matches Some(f) ==> f@ == bundle_dirs(s.subrange(0, i as int))[0],
            more <==> bundle_dirs(s.subrange(0, i as int)).len() > 1,
        decreases entries@.len() - i,
    {
        proof {
            let p = s.subrange(0, i + 1);
            assert(p.drop_last() =~= s.subrange(0, i as int));
            assert(p.last() == entry_view(entries@[i as int]));
        }
        if bundle_dir_name(entries[i].name.as_str()) {
            if found.is_some() {
                more = true;
            } else {
                found = Some(entries[i].name.clone());
            }
        }
        i = i + 1;
    }
    proof {
        assert(s.subrange(0, entries@.len() as int) =~= s);
    }
    match found {
        Some(f) => if more {
            Err(SignError::MalformedArchive)
        } else {
            Ok(f)
        },
        None => Err(SignError::MalformedArchive),
    }
}

/// The contents of the last member named `name`.
pub fn find_named<'a>(entries: &'a Vec<ArchiveEntry>, name: &str) -> (r: Option<&'a Vec<u8>>)
    ensures
        match last_named(entries_view(entries@), name@) {
            Some(d) => r matches Some(v) && v@ == d,
            None => r is None,
        },
{
    let ghost s = entries_view(entries@);
    let target = String::from_str(name);
    let mut found: Option<&Vec<u8>> = None;
    let mut i: usize = 0;
    while i < entries.len()
        invariant
            s == entries_view(entries@),
            target@ == name@,
            i <= entries@.len(),
            match last_named(s.subrange(0, i as int), name@) {
                Some(d) => found matches Some(v) && v@ == d,
                None => found is None,
            },
        decreases entries@.len() - i,
    {
        proof {
            let p = s.subrange(0, i + 1);
            assert(p.drop_last() =~= s.subrange(0, i as int));
            assert(p.last() == entry_view(entries@[i as int]));
        }
        if entries[i].name == target {
            found = Some(&entries[i].data);
        }
        i = i + 1;
    }
    proof {
        assert(s.subrange(0, entries@.len() as int) =~= s);
    }
    found
}

/// The first license path that the manifest lists under `SinfPaths`.
pub fn sinf_path(dict: &Vec<(String, Option<Vec<Option<String>>>)>) -> (r: Option<String>)
    ensures
        opt_text_view(r) == sinf_path_in(
            dict@.map_values(|f: (String, Option<Vec<Option<String>>>)| plist_field_view(f)),
        ),
{
    let ghost d = dict@.map_values(|f: (String, Option<Vec<Option<String>>>)| plist_field_view(f));
    let key = String::from_str("SinfPaths");
    let mut i: usize = 0;
    proof {
        assert(d.subrange(0, d.len() as int) =~= d);
    }
    while i < dict.len()
        invariant
            d == dict@.map_values(|f: (String, Option<Vec<Option<String>>>)| plist_field_view(f)),
            key@ == "SinfPaths"@,
            i <= dict@.len(),
            sinf_path_in(d) == sinf_path_in(d.subrange(i as int, d.len() as int)),
        decreases dict@.len() - i,
    {
        proof {
            let rest = d.subrange(i as int, d.len() as int);
            assert(rest[0] == plist_field_view(dict@[i as int]));
            assert(rest.drop_first() =~= d.subrange(i + 1, d.len() as int));
        }
        if dict[i].0 == key {
            return match &dict[i].1 {
                Some(a) => if a.len() > 0 {
                    proof {
                        assert(a@.map_values(|x: Option<String>| opt_text_view(x))[0]
                            == opt_text_view(a@[0]));
                    }
                    clone_opt(&a[0])
                } else {
                    None
                },
                None => None,
            };
        }
        i = i + 1;
    }
    None
}

/// Where the license goes and its decoded bytes, or why the members cannot
/// be signed with the base64 license `token`.
pub fn license_plan(entries: &Vec<ArchiveEntry>, token: &str) -> (r: Result<
    (String, Vec<u8>),
    SignError,
>)
    ensures
        match signed_entries(entries_view(entries@), token@) {
            Ok(e) => r matches Ok((slot, bytes)) && e == replaced(
                entries_view(entries@),
                slot@,
                bytes@,
            ) && slot@ == license_slot(entries_view(entries@)) && base64_decoded(token@) == Some(
                bytes@,
            ),
            Err(x) => r == Err::<(String, Vec<u8>), SignError>(x),
        },
{
    let bundle = find_bundle(entries)?;
    let manifest = join2(bundle.as_str(), "SC_Info/Manifest.plist");
    let content = match find_named(entries, manifest.as_str()) {
        Some(c) => c,
        None => return Err(SignError::MalformedManifest),
    };
    let dict = match plist_dict(content.as_slice()) {
        Some(d) => d,
        None => return Err(SignError::MalformedManifest),
    };
    if dict.len() == 0 {
        return Err(SignError::MalformedManifest);
    }
    let path = match sinf_path(&dict) {
        Some(p) => p,
        None => return Err(SignError::MissingLicenseSlot),
    };
    let bytes = match base64_decode(token) {
        Some(b) => b,
        None => return Err(SignError::MalformedLicense),
    };
    let slot = join2(bundle.as_str(), path.as_str());
    Ok((slot, bytes))
}

/// The members read from an archive, or `MalformedArchive` when some member
/// cannot be read.
pub fn read_entries(archive: &[u8]) -> (r: Result<Vec<ArchiveEntry>, SignError>)
    ensures
        match zip_entries_of(archive@) {
            Some(e) => r matches Ok(v) && entries_view(v@) == e,
            None => r == Err::<Vec<ArchiveEntry>, SignError>(SignError::MalformedArchive),
        },
{
    let n = match zip_entry_count(archive) {
        Some(n) => n,
        None => return Err(SignError::MalformedArchive),
    };
    let ghost ns = zip_names(archive@)->0;
    let mut v: Vec<ArchiveEntry> = Vec::new();
    let mut i: usize = 0;
    while i < n
        invariant
            zip_names(archive@) == Some(ns),
            n == ns.len(),
            i <= n,
            v@.len() == i,
            forall|j: int|
                0 <= j < i ==> (#[trigger] v@[j]).name@ == ns[j] && zip_data(archive@, j) == Some(
                    v@[j].data@,
                ),
        decreases n - i,
    {
        match zip_entry(archive, i) {
            Some(e) => v.push(e),
            None => {
                proof {
                    assert(!(zip_data(archive@, i as int) is Some));
                }
                return Err(SignError::MalformedArchive);
            },
        }
        i = i + 1;
    }
    proof {
        assert forall|j: int| 0 <= j < ns.len() implies #[trigger] zip_data(archive@, j) is Some by {
            assert(zip_data(archive@, j) == Some(v@[j].data@));
        }
        assert(entries_view(v@) =~= Seq::new(ns.len(), |j: int| (ns[j], zip_data(archive@, j)->0)));
    }
    Ok(v)
}

/// Dropping the members named `t` commutes with concatenation.
proof fn lemma_without_concat(a: Seq<EntryView>, b: Seq<EntryView>, t: Seq<char>)
    ensures
        without(a + b, t) == without(a, t) + without(b, t),
    decreases b.len(),
{
    if b.len() == 0 {
        assert(a + b =~= a);
        assert(without(a, t) + without(b, t) =~= without(a, t));
    } else {
        let ab = a + b;
        assert(ab.drop_last() =~= a + b.drop_last());
        assert(ab.last() == b.last());
        lemma_without_concat(a, b.drop_last(), t);
        if b.last().0 != t {
            assert(without(a, t) + without(b.drop_last(), t).push(b.last()) =~= (without(a, t)
                + without(b.drop_last(), t)).push(b.last()));
        }
    }
}

/// The archive holding the members, with those named `name` replaced by one
/// last member holding `data`; `None` exactly when the zip writer refuses
/// that list of members.
pub fn write_replacing(entries: &Vec<ArchiveEntry>, name: &str, data: &[u8]) -> (r: Option<
    Vec<u8>,
>)
    ensures
        r is Some <==> zip_writable(replaced(entries_view(entries@), name@, data@)),
        r matches Some(b) ==> b@ == zip_archive_of(
            replaced(entries_view(entries@), name@, data@),
        ),
{
    let ghost s = entries_view(entries@);
    let ghost full = replaced(s, name@, data@);
    let target = String::from_str(name);
    let mut w = zip_writer();
    let mut i: usize = 0;
    while i < entries.len()
        invariant
            s == entries_view(entries@),
            full == replaced(s, name@, data@),
            target@ == name@,
            i <= entries@.len(),
            zip_pending(w) == without(s.subrange(0, i as int), name@),
        decreases entries@.len() - i,
    {
        proof {
            let p = s.subrange(0, i + 1);
            assert(p.drop_last() =~= s.subrange(0, i as int));
            assert(p.last() == entry_view(entries@[i as int]));
        }
        if entries[i].name != target {
            match zip_add(w, entries[i].name.as_str(), entries[i].data.as_slice()) {
                Some(w2) => {
                    w = w2;
                },
                None => {
                    proof {
                        let head = s.subrange(0, i + 1);
                        let tail = s.subrange(i + 1, s.len() as int);
                        assert(head + tail =~= s);
                        lemma_without_concat(head, tail, name@);
                        let rest = without(tail, name@).push((name@, data@));
                        assert(full =~= without(head, name@) + rest);
                        assert(!zip_writable(without(head, name@) + rest));
                    }
                    return None;
                },
            }
        }
        i = i + 1;
    }
    proof {
        assert(s.subrange(0, entries@.len() as int) =~= s);
    }
    match zip_add(w, name, data) {
        Some(w2) => zip_finish(w2),
        None => {
            proof {
                assert(full + Seq::<EntryView>::empty() =~= full);
                assert(!zip_writable(full + Seq::<EntryView>::empty()));
            }
            None
        },
    }
}

impl SignatureClient {
    /// The package bytes.
    pub closed spec fn archive_bytes(&self) -> Seq<u8> {
        self.archive@
    }

    /// The base64 license blob, if the item offered one.
    pub closed spec fn license_token(&self) -> Option<Seq<char>> {
        match self.signature {
            Some(s) => Some(s.sinf@),
            None => None,
        }
    }

    /// The account that the package is signed for.
    pub closed spec fn account(&self) -> Seq<char> {
        self.email@
    }

    /// The descriptive fields of the package.
    pub closed spec fn descriptor(&self) -> SignatureMetadata {
        self.metadata
    }

    /// Prepares signing the item `song` for the account `email`; fails when
    /// the item offers no license blob numbered zero.
    pub fn new(song: &SongItem, email: &str) -> (r: Result<SignatureClient, SignError>)
        ensures
            first_sinf(song.sinfs@) is None ==> r == Err::<SignatureClient, SignError>(
                SignError::InvalidSignature,
            ),
            first_sinf(song.sinfs@) matches Some(t) ==> r matches Ok(c) && {
                &&& c.license_token() == Some(t)
                &&& c.account() == email@
                &&& c.archive_bytes().len() == 0
                &&& opt_text_view(c.descriptor().apple_id) == Some(email@)
                &&& opt_text_view(c.descriptor().user_name) == Some(email@)
                &&& match song.metadata {
                    Some(m) => {
                        &&& opt_text_view(c.descriptor().bundle_display_name) == opt_text_view(
                            m.bundle_display_name,
                        )
                        &&& opt_text_view(c.descriptor().bundle_short_version_string) == opt_text_view(
                            m.bundle_short_version_string,
                        )
                        &&& opt_text_view(c.descriptor().bundle_id) == opt_text_view(m.bundle_id)
                        &&& opt_text_view(c.descriptor().artwork_url) == opt_text_view(artwork_of(m))
                        &&& opt_text_view(c.descriptor().artist_name) == opt_text_view(m.artist_name)
                    },
                    None => {
                        &&& c.descriptor().bundle_display_name is None
                        &&& c.descriptor().bundle_short_version_string is None
                        &&& c.descriptor().bundle_id is None
                        &&& c.descriptor().artwork_url is None
                        &&& c.descriptor().artist_name is None
                    },
                }
            },
    {
        let metadata = match &song.metadata {
            Some(m) => SignatureMetadata {
                bundle_display_name: clone_opt(&m.bundle_display_name),
                bundle_short_version_string: clone_opt(&m.bundle_short_version_string),
                bundle_id: clone_opt(&m.bundle_id),
                artwork_url: match &m.artwork_url_60 {
                    Some(u) => Some(u.clone()),
                    None => match &m.artwork_url_512 {
                        Some(u) => Some(u.clone()),
                        None => clone_opt(&m.artwork_url_100),
                    },
                },
                artist_name: clone_opt(&m.artist_name),
                apple_id: Some(String::from_str(email)),
                user_name: Some(String::from_str(email)),
            },
            None => SignatureMetadata {
                bundle_display_name: None,
                bundle_short_version_string: None,
                bundle_id: None,
                artwork_url: None,
                artist_name: None,
                apple_id: Some(String::from_str(email)),
                user_name: Some(String::from_str(email)),
            },
        };
        let mut i: usize = 0;
        let mut signature: Option<Sinf> = None;
        proof {
            assert(song.sinfs@.subrange(0, song.sinfs@.len() as int) =~= song.sinfs@);
        }
        while i < song.sinfs.len() && signature.is_none()
            invariant
                i <= song.sinfs@.len(),
                signature is None ==> first_sinf(song.sinfs@) == first_sinf(
                    song.sinfs@.subrange(i as int, song.sinfs@.len() as int),
                ),
                signature matches Some(sg) ==> first_sinf(song.sinfs@) == Some(sg.sinf@),
            decreases song.sinfs@.len() - i,
        {
            proof {
                let rest = song.sinfs@.subrange(i as int, song.sinfs@.len() as int);
                assert(rest.drop_first() =~= song.sinfs@.subrange(
                    i + 1,
                    song.sinfs@.len() as int,
                ));
            }
            let entry = &song.sinfs[i];
            if entry.id == Some(0i64) {
                let text = match &entry.sinf {
                    Some(t) => t.clone(),
                    None => String::new(),
                };
                signature = Some(Sinf { id: 0, sinf: text });
            }
            i = i + 1;
        }
        match signature {
            None => Err(SignError::InvalidSignature),
            Some(s) => Ok(
                SignatureClient {
                    archive: Vec::new(),
                    filename: String::new(),
                    metadata,
                    signature: Some(s),
                    email: String::from_str(email),
                },
            ),
        }
    }

    /// Takes the package bytes read from `filename`.
    pub fn load(&mut self, archive: Vec<u8>, filename: String)
        ensures
            final(self).archive_bytes() == archive@,
            final(self).license_token() == old(self).license_token(),
            final(self).account() == old(self).account(),
            final(self).descriptor() == old(self).descriptor(),
    {
        self.archive = archive;
        self.filename = filename;
    }

    /// The package bytes.
    pub fn archive(&self) -> (r: &Vec<u8>)
        ensures
            r@ == self.archive_bytes(),
    {
        &self.archive
    }

    /// The file the package was read from.
    pub fn filename(&self) -> &String {
        &self.filename
    }

    /// The key-value pairs of the metadata descriptor.
    pub fn metadata_pairs(&self) -> (r: Vec<(String, String)>)
        ensures
            r@.map_values(|p: (String, String)| (p.0@, p.1@)) == metadata_pairs(
                self.descriptor(),
                self.account(),
            ),
    {
        let mut v: Vec<(String, String)> = Vec::new();
        let ghost m = self.metadata;
        push_opt(&mut v, "bundleDisplayName", &self.metadata.bundle_display_name);
        push_opt(&mut v, "bundleShortVersionString", &self.metadata.bundle_short_version_string);
        push_opt(&mut v, "bundleId", &self.metadata.bundle_id);
        push_opt(&mut v, "artworkUrl", &self.metadata.artwork_url);
        push_opt(&mut v, "artistName", &self.metadata.artist_name);
        v.push((String::from_str("apple-id"), self.email.clone()));
        v.push((String::from_str("userName"), self.email.clone()));
        proof {
            assert(v@.map_values(|p: (String, String)| (p.0@, p.1@)) =~= metadata_pairs(
                m,
                self.email@,
            ));
        }
        v
    }

    /// Adds, or replaces, the top-level metadata descriptor.
    pub fn append_metadata(&mut self) -> (r: Result<(), SignError>)
        ensures
            final(self).license_token() == old(self).license_token(),
            final(self).account() == old(self).account(),
            final(self).descriptor() == old(self).descriptor(),
            zip_entries_of(old(self).archive_bytes()) is None ==> r == Err::<(), SignError>(
                SignError::MalformedArchive,
            ),
            zip_entries_of(old(self).archive_bytes()) matches Some(e) ==> {
                let updated = replaced(
                    e,
                    metadata_entry_name(),
                    plist_xml_of(metadata_pairs(old(self).descriptor(), old(self).account())),
                );
                &&& r is Ok <==> zip_writable(updated)
                &&& r is Ok ==> final(self).archive_bytes() == zip_archive_of(updated)
                &&& r is Err ==> r == Err::<(), SignError>(SignError::WriteFailed)
            },
            r is Err ==> final(self).archive_bytes() == old(self).archive_bytes(),
    {
        let pairs = self.metadata_pairs();
        let entries = read_entries(self.archive.as_slice())?;
        let xml = match plist_xml(&pairs) {
            Some(x) => x,
            None => return Err(SignError::WriteFailed),
        };
        match write_replacing(&entries, "iTunesMetadata.plist", xml.as_slice()) {
            Some(bytes) => {
                proof {
                    reveal_strlit("iTunesMetadata.plist");
                }
                self.archive = bytes;
                Ok(())
            },
            None => Err(SignError::WriteFailed),
        }
    }

    /// Puts the license blob into the slot that the bundle's manifest names,
    /// keeping every other member.
    pub fn append_signature(&mut self) -> (r: Result<(), SignError>)
        ensures
            final(self).license_token() == old(self).license_token(),
            final(self).account() == old(self).account(),
            final(self).descriptor() == old(self).descriptor(),
            r is Err ==> final(self).archive_bytes() == old(self).archive_bytes(),
            old(self).license_token() is None ==> r == Err::<(), SignError>(
                SignError::InvalidSignature,
            ),
            old(self).license_token() matches Some(t) ==> match zip_entries_of(
                old(self).archive_bytes(),
            ) {
                None => r == Err::<(), SignError>(SignError::MalformedArchive),
                Some(e) => match signed_entries(e, t) {
                    Err(x) => r == Err::<(), SignError>(x),
                    Ok(signed) => {
                        &&& r is Ok <==> zip_writable(signed)
                        &&& r is Ok ==> final(self).archive_bytes() == zip_archive_of(signed)
                        &&& r is Err ==> r == Err::<(), SignError>(SignError::WriteFailed)
                    },
                },
            },
    {
        let token = match &self.signature {
            Some(s) => s.sinf.as_str(),
            None => return Err(SignError::InvalidSignature),
        };
        let entries = read_entries(self.archive.as_slice())?;
        let (slot, bytes) = license_plan(&entries, token)?;
        match write_replacing(&entries, slot.as_str(), bytes.as_slice()) {
            Some(out) => {
                self.archive = out;
                Ok(())
            },
            None => Err(SignError::WriteFailed),
        }
    }
}

fn push_opt(v: &mut Vec<(String, String)>, key: &str, value: &Option<String>)
    ensures
        final(v)@.map_values(|p: (String, String)| (p.0@, p.1@)) == old(v)@.map_values(
            |p: (String, String)| (p.0@, p.1@),
        ) + match *value {
            Some(s) => seq![(key@, s@)],
            None => Seq::<(Seq<char>, Seq<char>)>::empty(),
        },
{
    match value {
        Some(s) => {
            v.push((String::from_str(key), s.clone()));
            proof {
                assert(final(v)@.map_values(|p: (String, String)| (p.0@, p.1@)) =~= old(v)@.map_values(
                    |p: (String, String)| (p.0@, p.1@),
                ) + seq![(key@, s@)]);
            }
        },
        None => {
            proof {
                assert(old(v)@.map_values(|p: (String, String)| (p.0@, p.1@)) + Seq::<
                    (Seq<char>, Seq<char>),
                >::empty() =~= old(v)@.map_values(|p: (String, String)| (p.0@, p.1@)));
            }
        },
    }
}

proof fn lemma_without_keeps(s: Seq<EntryView>, t: Seq<char>, m: Seq<char>)
    requires
        m != t,
    ensures
        last_named(without(s, t), m) == last_named(s, m),
    decreases s.len(),
{
    if s.len() > 0 {
        lemma_without_keeps(s.drop_last(), t, m);
        if s.last().0 != t {
            let w = without(s.drop_last(), t).push(s.last());
            assert(w.drop_last() =~= without(s.drop_last(), t));
        }
    }
}

/// Removing the members named `t` removes exactly the bundle directories
/// named `t`.
proof fn lemma_without_bundles(s: Seq<EntryView>, t: Seq<char>)
    ensures
        !is_bundle_dir(t) ==> bundle_dirs(without(s, t)) == bundle_dirs(s),
        (forall|i: int| 0 <= i < bundle_dirs(s).len() ==> bundle_dirs(s)[i] == t) ==> bundle_dirs(
            without(s, t),
        ).len() == 0,
    decreases s.len(),
{
    if s.len() > 0 {
        let r = s.drop_last();
        let e = s.last();
        lemma_without_bundles(r, t);
        if e.0 != t {
            let w = without(r, t).push(e);
            assert(w.drop_last() =~= without(r, t));
        }
        if forall|i: int| 0 <= i < bundle_dirs(s).len() ==> bundle_dirs(s)[i] == t {
            assert forall|i: int| 0 <= i < bundle_dirs(r).len() implies bundle_dirs(r)[i] == t by {
                assert(bundle_dirs(r)[i] == bundle_dirs(s)[i]);
            }
            if is_bundle_dir(e.0) {
                assert(bundle_dirs(s).last() == e.0);
            }
        }
    }
}

/// Every name that `bundle_dirs` lists is a bundle directory.
proof fn lemma_dirs_are_bundles(s: Seq<EntryView>)
    ensures
        forall|i: int| 0 <= i < bundle_dirs(s).len() ==> is_bundle_dir(#[trigger] bundle_dirs(s)[i]),
    decreases s.len(),
{
    if s.len() > 0 {
        let r = s.drop_last();
        lemma_dirs_are_bundles(r);
        assert forall|i: int| 0 <= i < bundle_dirs(s).len() implies is_bundle_dir(
            #[trigger] bundle_dirs(s)[i],
        ) by {
            if i < bundle_dirs(r).len() {
                assert(bundle_dirs(s)[i] == bundle_dirs(r)[i]);
            }
        }
    }
}

proof fn lemma_push_member(x: Seq<EntryView>, t: Seq<char>, d: Seq<u8>, m: Seq<char>)
    ensures
        bundle_dirs(x.push((t, d))) == if is_bundle_dir(t) {
            bundle_dirs(x).push(t)
        } else {
            bundle_dirs(x)
        },
        last_named(x.push((t, d)), m) == if m == t {
            Some(d)
        } else {
            last_named(x, m)
        },
{
    assert(x.push((t, d)).drop_last() =~= x);
}

/// A bundle directory followed by a non-empty path is no bundle directory.
proof fn lemma_below_bundle(b: Seq<char>, p: Seq<char>)
    requires
        is_bundle_dir(b),
        p.len() > 0,
    ensures
        !is_bundle_dir(b + p),
{
    let t = b + p;
    reveal_strlit(".app/");
    reveal_strlit("/");
    assert(b[b.len() - 1] == '/') by {
        assert(b.subrange(b.len() - 5, b.len() as int)[4] == ".app/"@[4]);
    }
    if is_bundle_dir(t) {
        if p.len() >= 5 {
            let mid = t.subrange(8, t.len() - 5);
            let k = b.len() - 1 - 8;
            assert(mid.subrange(k, k + 1) =~= "/"@);
            assert(seq_contains(mid, "/"@));
        } else {
            let j = t.len() - 5;
            assert(t.subrange(j, t.len() as int)[0] == ".app/"@[0]);
            assert(t[j] == b[j]);
            assert(b[j] == b.subrange(b.len() - 5, b.len() as int)[j - (b.len() - 5)]);
        }
    }
}

/// Signing idempotence: signing an archive's members twice with the same
/// license leaves the same bytes in the license slot both times, namely the
/// decoded license. The license slot is taken not to be the manifest itself.
pub proof fn lemma_signing_idempotent(s: Seq<EntryView>, token: Seq<char>)
    requires
        signed_entries(s, token) is Ok,
        license_slot(s) != manifest_path(bundle_dirs(s)[0]),
    ensures
        signed_entries(s, token) matches Ok(e1) && {
            &&& license_slot(e1) == license_slot(s)
            &&& last_named(e1, license_slot(s)) == base64_decoded(token)
            &&& signed_entries(e1, token) matches Ok(e2) && last_named(e2, license_slot(s))
                == base64_decoded(token)
        },
{
    let t = license_slot(s);
    let b = bundle_dirs(s)[0];
    let mp = manifest_path(b);
    let p = sinf_path_in(plist_dict_of(last_named(s, mp)->0)->0)->0;
    let bytes = base64_decoded(token)->0;
    let e1 = replaced(s, t, bytes);
    assert(t == b + p);
    lemma_without_keeps(s, t, mp);
    lemma_without_bundles(s, t);
    lemma_push_member(without(s, t), t, bytes, mp);
    lemma_push_member(without(s, t), t, bytes, t);
    lemma_dirs_are_bundles(s);
    if p.len() > 0 {
        lemma_below_bundle(b, p);
    } else {
        assert(t =~= b);
        assert(bundle_dirs(without(s, t)).push(t) =~= bundle_dirs(s));
    }
    assert(bundle_dirs(e1) == bundle_dirs(s));
    assert(last_named(e1, mp) == last_named(s, mp));
    lemma_push_member(without(e1, t), t, bytes, t);
}

} // verus!
