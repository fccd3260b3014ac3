//! Symmetric key lifecycle and credential encryption at rest.
//!
//! One key is current; superseded keys stay as decrypt-only history. A blob
//! is `base64(nonce ‖ ciphertext ‖ tag)` and records no key: decryption tries
//! the current key, then the history from newest to oldest.

use vstd::prelude::*;
use vstd::slice::slice_subrange;
use vstd::utf8::{
    decode_utf8, encode_utf8, encode_utf8_decode_utf8, encode_utf8_valid_utf8, valid_utf8,
};
use crate::codec::{
    base64_decode, base64_decoded, base64_encode, base64_of, hex_encode, hex_numeral, hex_of,
    hex_u64, now_millis, random_bytes, utf8_string,
};
use crate::crypto::{
    aes_gcm_open, aes_gcm_seal, open, seal, KEY_LEN, MAX_PLAINTEXT, NONCE_LEN, TAG_LEN,
};
use crate::text::{join2, join3};

verus! {

/// Interval between automatic rotations: thirty days, in milliseconds.
pub const KEY_ROTATION_INTERVAL_MS: i64 = 30 * 24 * 60 * 60 * 1000;

/// Why a key operation failed.
#[derive(Debug, Clone, Copy, PartialEq, Eq, Structural)]
pub enum KeyError {
    /// No key has been created yet.
    KeyNotInitialized,
    /// The clock cannot be read, or its reading leaves no room for the next
    /// rotation time.
    ClockOutOfRange,
    /// The cipher refused the plaintext.
    EncryptionFailed,
    /// No known key authenticates the blob.
    DecryptionFailed,
}

/// One key and its identifier.
pub struct KeyEntry {
    pub key_id: String,
    pub key: Vec<u8>,
}

/// The current key as reported to callers, with its key material in hex.
pub struct KeyInfo {
    pub key_id: String,
    pub key: String,
    pub last_rotation: i64,
    pub next_rotation: i64,
}

/// Owner of the current key and of the history of superseded keys.
pub struct KeyManager {
    current: Option<KeyEntry>,
    previous: Vec<KeyEntry>,
    last_rotation: Option<i64>,
    next_rotation: Option<i64>,
}

/// The abstract state of a key manager: the current key, the history from
/// oldest to newest, and the rotation times.
pub struct KeyRing {
    pub current: Option<(Seq<char>, Seq<u8>)>,
    pub history: Seq<(Seq<char>, Seq<u8>)>,
    pub last_rotation: Option<i64>,
    pub next_rotation: Option<i64>,
}

pub open spec fn entry_view(e: KeyEntry) -> (Seq<char>, Seq<u8>) {
    (e.key_id@, e.key@)
}

impl View for KeyManager {
    type V = KeyRing;

    closed spec fn view(&self) -> KeyRing {
        KeyRing {
            current: match self.current {
                Some(e) => Some(entry_view(e)),
                None => None,
            },
            history: self.previous@.map_values(|e: KeyEntry| entry_view(e)),
            last_rotation: self.last_rotation,
            next_rotation: self.next_rotation,
        }
    }
}

/// Every key has the cipher's length, a manager without a current key has no
/// history and no rotation times, and the next rotation is one interval after
/// the last.
pub open spec fn ring_wf(v: KeyRing) -> bool {
    &&& v.current matches Some(c) ==> c.1.len() == KEY_LEN
    &&& forall|i: int| 0 <= i < v.history.len() ==> (#[trigger] v.history[i]).1.len() == KEY_LEN
    &&& v.current is None ==> {
        &&& v.history.len() == 0
        &&& v.last_rotation is None
        &&& v.next_rotation is None
    }
    &&& v.current is Some ==> {
        &&& v.last_rotation matches Some(l)
        &&& v.next_rotation matches Some(n)
        &&& n == l + KEY_ROTATION_INTERVAL_MS
    }
}

/// The state after rotating to key `key` named `id` at time `now`: the old
/// current key joins the history as its newest member.
pub open spec fn rotated(v: KeyRing, id: Seq<char>, key: Seq<u8>, now: i64) -> KeyRing {
    KeyRing {
        current: Some((id, key)),
        history: match v.current {
            Some(c) => v.history.push(c),
            None => v.history,
        },
        last_rotation: Some(now),
        next_rotation: Some((now + KEY_ROTATION_INTERVAL_MS) as i64),
    }
}

/// The keys in the order that decryption tries them: the current key, then
/// the history from newest to oldest.
pub open spec fn key_order(v: KeyRing) -> Seq<Seq<u8>> {
    let hist = Seq::new(v.history.len(), |i: int| v.history[v.history.len() - 1 - i].1);
    match v.current {
        Some(c) => seq![c.1] + hist,
        None => hist,
    }
}

/// The key identifiers in decryption order.
pub open spec fn key_id_order(v: KeyRing) -> Seq<Seq<char>> {
    let hist = Seq::new(v.history.len(), |i: int| v.history[v.history.len() - 1 - i].0);
    match v.current {
        Some(c) => seq![c.0] + hist,
        None => hist,
    }
}

/// The key opens the sealed bytes to valid UTF-8 text.
pub open spec fn opens_to_text(key: Seq<u8>, nonce: Seq<u8>, sealed: Seq<u8>) -> bool {
    aes_gcm_open(key, nonce, sealed) matches Some(p) && valid_utf8(p)
}

/// The text from the first key, in order, that opens the sealed bytes to
/// valid UTF-8.
pub open spec fn first_opening(keys: Seq<Seq<u8>>, nonce: Seq<u8>, sealed: Seq<u8>) -> Option<
    Seq<char>,
>
    decreases keys.len(),
{
    if keys.len() == 0 {
        None
    } else if opens_to_text(keys[0], nonce, sealed) {
        Some(decode_utf8(aes_gcm_open(keys[0], nonce, sealed)->0))
    } else {
        first_opening(keys.drop_first(), nonce, sealed)
    }
}

/// What decrypting the blob `data` yields under the key manager state `v`.
pub open spec fn decrypted(v: KeyRing, data: Seq<char>) -> Option<Seq<char>> {
    match base64_decoded(data) {
        Some(b) => if b.len() >= NONCE_LEN {
            first_opening(key_order(v), b.subrange(0, NONCE_LEN as int), b.subrange(NONCE_LEN as int, b.len() as int))
        } else {
            None
        },
        None => None,
    }
}

/// The blob holds a nonce and sealed bytes that `key` opens to the UTF-8
/// encoding of `p`.
pub open spec fn sealed_under(key: Seq<u8>, blob: Seq<char>, p: Seq<char>) -> bool {
    exists|n: Seq<u8>, c: Seq<u8>|
        n.len() == NONCE_LEN && base64_decoded(blob) == Some(n + c) && #[trigger] aes_gcm_open(
            key,
            n,
            c,
        ) == Some(encode_utf8(p))
}

/// The identifier of a key created at `ts` with random suffix `suffix`.
pub open spec fn key_id_text(ts: i64, suffix: Seq<u8>) -> Seq<char> {
    "key-"@ + hex_numeral(if ts >= 0 { ts as nat } else { 0 }) + "-"@ + hex_of(suffix)
}

impl KeyManager {
    pub open spec fn wf(&self) -> bool {
        ring_wf(self@)
    }

    /// A manager without keys.
    pub fn new() -> (r: KeyManager)
        ensures
            r.wf(),
            r@.current is None,
            r@.history.len() == 0,
    {
        KeyManager { current: None, previous: Vec::new(), last_rotation: None, next_rotation: None }
    }

    /// Makes sure that a current key exists, creating the first one if needed.
    pub fn init(&mut self) -> (r: Result<(), KeyError>)
        requires
            old(self).wf(),
        ensures
            final(self).wf(),
            old(self)@.current is Some ==> r is Ok && final(self)@ == old(self)@,
            r is Ok ==> final(self)@.current is Some,
            r is Err ==> r == Err::<(), KeyError>(KeyError::ClockOutOfRange) && final(self)@
                == old(self)@,
    {
        if self.current.is_some() {
            return Ok(());
        }
        match self.rotate_key() {
            Ok(_) => Ok(()),
            Err(e) => Err(e),
        }
    }

    /// The identifier for a key created at `ts` with the random `suffix`.
    pub fn key_id_for(ts: i64, suffix: &[u8]) -> (r: String)
        ensures
            r@ == key_id_text(ts, suffix@),
    {
        let t: u64 = if ts >= 0 { ts as u64 } else { 0 };
        let stamp = hex_u64(t);
        let tail = hex_encode(suffix);
        let head = join3("key-", stamp.as_str(), "-");
        join2(head.as_str(), tail.as_str())
    }

    /// Fresh key material: 256 random bits, in hex.
    pub fn generate_new_key(&self) -> (r: String)
        ensures
            exists|k: Seq<u8>| k.len() == KEY_LEN && r@ == hex_of(k),
            r@.len() == 2 * KEY_LEN,
    {
        let key = random_bytes(KEY_LEN);
        hex_encode(key.as_slice())
    }

    /// A fresh key identifier: the current time (zero when the clock cannot be
    /// read) and a random suffix.
    pub fn generate_key_id(&self) -> (r: String)
        ensures
            exists|ts: i64, s: Seq<u8>| s.len() == 4 && r@ == key_id_text(ts, s),
    {
        let now = match now_millis() {
            Some(t) => t,
            None => 0,
        };
        let suffix = random_bytes(4);
        Self::key_id_for(now, suffix.as_slice())
    }

    /// Whether rotation is due at time `now`: always when no key exists,
    /// otherwise once `now` is past the next rotation time.
    pub fn needs_rotation_at(&self, now: i64) -> (r: bool)
        ensures
            r == match self@.next_rotation {
                Some(t) => now > t,
                None => true,
            },
    {
        match self.next_rotation {
            Some(t) => now > t,
            None => true,
        }
    }

    /// Whether rotation is due now. Without a key it always is; with one, an
    /// unreadable clock counts as not due.
    pub fn needs_rotation(&self) -> (r: bool)
        ensures
            self@.next_rotation is None ==> r,
    {
        match self.next_rotation {
            None => true,
            Some(_) => match now_millis() {
                Some(now) => self.needs_rotation_at(now),
                None => false,
            },
        }
    }

    /// Makes `key` named `key_id` current at time `now`, moving the previous
    /// current key into the history.
    pub fn rotate_with(&mut self, key_id: String, key: Vec<u8>, now: i64) -> (r: Result<
        KeyInfo,
        KeyError,
    >)
        requires
            old(self).wf(),
            key@.len() == KEY_LEN,
        ensures
            final(self).wf(),
            now > i64::MAX - KEY_ROTATION_INTERVAL_MS ==> r is Err && final(self)@ == old(self)@,
            r is Err ==> r == Err::<KeyInfo, KeyError>(KeyError::ClockOutOfRange),
            now <= i64::MAX - KEY_ROTATION_INTERVAL_MS ==> r is Ok,
            r matches Ok(info) ==> {
                &&& final(self)@ == rotated(old(self)@, key_id@, key@, now)
                &&& info.key_id@ == key_id@
                &&& info.key@ == hex_of(key@)
                &&& info.last_rotation == now
                &&& info.next_rotation == now + KEY_ROTATION_INTERVAL_MS
            },
    {
        if now > i64::MAX - KEY_ROTATION_INTERVAL_MS {
            return Err(KeyError::ClockOutOfRange);
        }
        let next = now + KEY_ROTATION_INTERVAL_MS;
        let info = KeyInfo {
            key_id: key_id.clone(),
            key: hex_encode(key.as_slice()),
            last_rotation: now,
            next_rotation: next,
        };
        let old_current = self.current.take();
        match old_current {
            Some(e) => {
                self.previous.push(e);
            },
            None => {},
        }
        self.current = Some(KeyEntry { key_id, key });
        self.last_rotation = Some(now);
        self.next_rotation = Some(next);
        proof {
            assert(self@.history =~= rotated(old(self)@, key_id@, key@, now).history);
        }
        Ok(info)
    }

    /// Creates a new random key with a fresh identifier and makes it current.
    pub fn rotate_key(&mut self) -> (r: Result<KeyInfo, KeyError>)
        requires
            old(self).wf(),
        ensures
            final(self).wf(),
            r is Err ==> r == Err::<KeyInfo, KeyError>(KeyError::ClockOutOfRange) && final(self)@
                == old(self)@,
            r matches Ok(info) ==> exists|k: Seq<u8>|
                k.len() == KEY_LEN && #[trigger] rotated(
                    old(self)@,
                    info.key_id@,
                    k,
                    info.last_rotation,
                ) == final(self)@ && info.key@ == hex_of(k),
            r matches Ok(info) ==> exists|ts: i64, suffix: Seq<u8>|
                suffix.len() == 4 && #[trigger] key_id_text(ts, suffix) == info.key_id@,
            r matches Ok(info) ==> info.next_rotation == info.last_rotation
                + KEY_ROTATION_INTERVAL_MS,
            r matches Ok(info) ==> final(self)@.last_rotation == Some(info.last_rotation)
                && final(self)@.next_rotation == Some(info.next_rotation),
    {
        let now = match now_millis() {
            Some(t) => t,
            None => return Err(KeyError::ClockOutOfRange),
        };
        let suffix = random_bytes(4);
        let key_id = Self::key_id_for(now, suffix.as_slice());
        let key = random_bytes(KEY_LEN);
        let ghost k = key@;
        let ghost sv = suffix@;
        let r = self.rotate_with(key_id, key, now);
        proof {
            if r is Ok {
                assert(key_id_text(now, sv) == (r->Ok_0).key_id@);
                assert(rotated(old(self)@, (r->Ok_0).key_id@, k, (r->Ok_0).last_rotation) == self@);
            }
        }
        r
    }

    /// Rotation on request, ahead of the schedule.
    pub fn manual_rotate(&mut self) -> (r: Result<KeyInfo, KeyError>)
        requires
            old(self).wf(),
        ensures
            final(self).wf(),
            r is Err ==> r == Err::<KeyInfo, KeyError>(KeyError::ClockOutOfRange) && final(self)@
                == old(self)@,
            r matches Ok(info) ==> exists|k: Seq<u8>|
                k.len() == KEY_LEN && #[trigger] rotated(
                    old(self)@,
                    info.key_id@,
                    k,
                    info.last_rotation,
                ) == final(self)@ && info.key@ == hex_of(k),
            r matches Ok(info) ==> exists|ts: i64, suffix: Seq<u8>|
                suffix.len() == 4 && #[trigger] key_id_text(ts, suffix) == info.key_id@,
            r matches Ok(info) ==> info.next_rotation == info.last_rotation
                + KEY_ROTATION_INTERVAL_MS,
            r matches Ok(info) ==> final(self)@.last_rotation == Some(info.last_rotation)
                && final(self)@.next_rotation == Some(info.next_rotation),
    {
        self.rotate_key()
    }

    /// The current key material in hex.
    pub fn get_current_key(&self) -> (r: Result<String, KeyError>)
        ensures
            match self@.current {
                Some(c) => r matches Ok(s) && s@ == hex_of(c.1),
                None => r == Err::<String, KeyError>(KeyError::KeyNotInitialized),
            },
    {
        match &self.current {
            Some(e) => Ok(hex_encode(e.key.as_slice())),
            None => Err(KeyError::KeyNotInitialized),
        }
    }

    /// The identifier of the current key.
    pub fn get_current_key_id(&self) -> (r: Result<String, KeyError>)
        ensures
            match self@.current {
                Some(c) => r matches Ok(s) && s@ == c.0,
                None => r == Err::<String, KeyError>(KeyError::KeyNotInitialized),
            },
    {
        match &self.current {
            Some(e) => Ok(e.key_id.clone()),
            None => Err(KeyError::KeyNotInitialized),
        }
    }

    /// The current key and rotation times; empty texts and zero times when
    /// no key exists.
    pub fn get_key_info(&self) -> (r: KeyInfo)
        ensures
            match self@.current {
                Some(c) => r.key_id@ == c.0 && r.key@ == hex_of(c.1),
                None => r.key_id@.len() == 0 && r.key@.len() == 0,
            },
            r.last_rotation == match self@.last_rotation {
                Some(t) => t,
                None => 0,
            },
            r.next_rotation == match self@.next_rotation {
                Some(t) => t,
                None => 0,
            },
    {
        let (key_id, key) = match &self.current {
            Some(e) => (e.key_id.clone(), hex_encode(e.key.as_slice())),
            None => (String::new(), String::new()),
        };
        KeyInfo {
            key_id,
            key,
            last_rotation: match self.last_rotation {
                Some(t) => t,
                None => 0,
            },
            next_rotation: match self.next_rotation {
                Some(t) => t,
                None => 0,
            },
        }
    }

    /// The identifiers of all keys, in the order that decryption tries
    /// them: the current key, then the history from newest to oldest.
    pub fn key_ids_newest_first(&self) -> (r: Vec<String>)
        requires
            self.wf(),
        ensures
            r@.map_values(|s: String| s@) == key_id_order(self@),
    {
        let mut ids: Vec<String> = Vec::new();
        match &self.current {
            Some(e) => ids.push(e.key_id.clone()),
            None => {},
        }
        let ghost first = ids@.map_values(|s: String| s@);
        let n = self.previous.len();
        let mut j: usize = 0;
        while j < n
            invariant
                n == self.previous@.len(),
                j <= n,
                self@.history.len() == n,
                first.len() <= 1,
                ids@.len() == first.len() + j,
                ids@.map_values(|s: String| s@) == first + Seq::new(
                    j as nat,
                    |i: int| self@.history[n - 1 - i].0,
                ),
            decreases n - j,
        {
            let ghost before = ids@.map_values(|s: String| s@);
            proof {
                assert(self@.history[n - 1 - j] == entry_view(self.previous@[n - 1 - j]));
            }
            let id = self.previous[n - 1 - j].key_id.clone();
            let ghost idv = id@;
            ids.push(id);
            proof {
                assert(idv == self@.history[n - 1 - j].0);
                assert(ids@.map_values(|s: String| s@) =~= before.push(idv));
                assert(ids@.map_values(|s: String| s@) =~= first + Seq::new(
                    (j + 1) as nat,
                    |i: int| self@.history[n - 1 - i].0,
                ));
            }
            j = j + 1;
        }
        proof {
            assert(ids@.map_values(|s: String| s@) =~= key_id_order(self@));
        }
        ids
    }

    /// The text that `key` opens the sealed bytes to, if any.
    fn open_with(key: &[u8], nonce: &[u8], sealed: &[u8]) -> (r: Option<String>)
        requires
            key@.len() == KEY_LEN,
            nonce@.len() == NONCE_LEN,
        ensures
            r is Some <==> opens_to_text(key@, nonce@, sealed@),
            r is Some ==> sealed@.len() >= TAG_LEN,
            r matches Some(s) ==> s@ == decode_utf8(aes_gcm_open(key@, nonce@, sealed@)->0),
    {
        match open(key, nonce, sealed) {
            Some(p) => utf8_string(p),
            None => None,
        }
    }

    /// Encrypts `plaintext` under the current key with a fresh random nonce.
    pub fn encrypt(&self, plaintext: &str) -> (r: Result<String, KeyError>)
        requires
            self.wf(),
        ensures
            self@.current is None ==> r == Err::<String, KeyError>(KeyError::KeyNotInitialized),
            self@.current matches Some(c) ==> match r {
                Ok(b) => {
                    &&& sealed_under(c.1, b@, plaintext@)
                    &&& exists|n: Seq<u8>|
                        n.len() == NONCE_LEN && b@ == base64_of(
                            n + #[trigger] aes_gcm_seal(c.1, n, encode_utf8(plaintext@)),
                        ) && base64_decoded(b@) == Some(
                            n + aes_gcm_seal(c.1, n, encode_utf8(plaintext@)),
                        ) && aes_gcm_seal(c.1, n, encode_utf8(plaintext@)).len() == encode_utf8(
                            plaintext@,
                        ).len() + TAG_LEN
                },
                Err(e) => e == KeyError::EncryptionFailed && encode_utf8(plaintext@).len()
                    > MAX_PLAINTEXT,
            },
            r matches Ok(b) ==> decrypted(self@, b@) == Some(plaintext@),
    {
        match &self.current {
            None => Err(KeyError::KeyNotInitialized),
            Some(entry) => {
                let nonce = random_bytes(NONCE_LEN);
                let pt = plaintext.as_bytes();
                match seal(entry.key.as_slice(), nonce.as_slice(), pt) {
                    None => Err(KeyError::EncryptionFailed),
                    Some(c) => {
                        let ghost n = nonce@;
                        let ghost cs = c@;
                        let mut blob = nonce;
                        let mut tail = c;
                        blob.append(&mut tail);
                        let out = base64_encode(blob.as_slice());
                        proof {
                            assert(blob@ == n + cs);
                            assert(aes_gcm_open(entry.key@, n, cs) == Some(encode_utf8(plaintext@)));
                            assert(sealed_under(entry.key@, out@, plaintext@));
                            assert(aes_gcm_seal(entry.key@, n, encode_utf8(plaintext@)) == cs);
                            lemma_round_trip(self@, out@, plaintext@);
                        }
                        Ok(out)
                    },
                }
            },
        }
    }

    /// Decrypts a blob with the first key, in decryption order, that
    /// authenticates it and yields valid UTF-8.
    pub fn decrypt(&self, data: &str) -> (r: Result<String, KeyError>)
        requires
            self.wf(),
        ensures
            match decrypted(self@, data@) {
                Some(p) => r matches Ok(s) && s@ == p,
                None => r == Err::<String, KeyError>(KeyError::DecryptionFailed),
            },
            base64_decoded(data@) is None ==> r == Err::<String, KeyError>(
                KeyError::DecryptionFailed,
            ),
            base64_decoded(data@) matches Some(b) && b.len() < NONCE_LEN + TAG_LEN ==> r == Err::<
                String,
                KeyError,
            >(KeyError::DecryptionFailed),
    {
        let decoded = match base64_decode(data) {
            Some(d) => d,
            None => return Err(KeyError::DecryptionFailed),
        };
        if decoded.len() < NONCE_LEN {
            return Err(KeyError::DecryptionFailed);
        }
        let nonce = slice_subrange(decoded.as_slice(), 0, NONCE_LEN);
        let sealed = slice_subrange(decoded.as_slice(), NONCE_LEN, decoded.len());
        let ghost keys = key_order(self@);
        let ghost total = keys.len() as int;
        let mut skip: usize = 0;
        match &self.current {
            Some(e) => {
                proof {
                    assert(keys.subrange(0, total) =~= keys);
                    assert(keys.drop_first() =~= keys.subrange(1, total));
                }
                match Self::open_with(e.key.as_slice(), nonce, sealed) {
                    Some(s) => {
                        return Ok(s);
                    },
                    None => {},
                }
                skip = 1;
            },
            None => {
                proof {
                    assert(keys.subrange(0, total) =~= keys);
                }
            },
        }
        let n = self.previous.len();
        let mut j: usize = 0;
        while j < n
            invariant
                self.wf(),
                keys == key_order(self@),
                total == keys.len(),
                n == self.previous@.len(),
                skip == (if self@.current is Some { 1int } else { 0int }),
                total == skip + n,
                j <= n,
                decoded@.len() >= NONCE_LEN,
                nonce@.len() == NONCE_LEN,
                nonce@ == decoded@.subrange(0, NONCE_LEN as int),
                sealed@ == decoded@.subrange(NONCE_LEN as int, decoded@.len() as int),
                decrypted(self@, data@) == first_opening(
                    keys.subrange(skip + j, total),
                    nonce@,
                    sealed@,
                ),
                base64_decoded(data@) == Some(decoded@),
            decreases n - j,
        {
            let e = &self.previous[n - 1 - j];
            proof {
                let rest = keys.subrange(skip + j, total);
                assert(self@.history[n - 1 - j] == entry_view(self.previous@[n - 1 - j]));
                assert(rest[0] == keys[skip + j]);
                assert(rest.drop_first() =~= keys.subrange(skip + j + 1, total));
            }
            match Self::open_with(e.key.as_slice(), nonce, sealed) {
                Some(s) => {
                    return Ok(s);
                },
                None => {},
            }
            j = j + 1;
        }
        proof {
            assert(keys.subrange(total, total).len() == 0);
        }
        Err(KeyError::DecryptionFailed)
    }
}

/// Round trip: a blob sealed under the current key, as `encrypt` produces
/// it, decrypts to its plaintext.
pub proof fn lemma_round_trip(v: KeyRing, blob: Seq<char>, p: Seq<char>)
    requires
        ring_wf(v),
        v.current matches Some(c) && sealed_under(c.1, blob, p),
    ensures
        decrypted(v, blob) == Some(p),
{
    let key = (v.current->0).1;
    let (n, c) = choose|n: Seq<u8>, c: Seq<u8>|
        n.len() == NONCE_LEN && base64_decoded(blob) == Some(n + c) && #[trigger] aes_gcm_open(
            key,
            n,
            c,
        ) == Some(encode_utf8(p));
    let b = n + c;
    assert(b.subrange(0, NONCE_LEN as int) =~= n);
    assert(b.subrange(NONCE_LEN as int, b.len() as int) =~= c);
    let keys = key_order(v);
    assert(keys[0] == key);
    encode_utf8_valid_utf8(p);
    encode_utf8_decode_utf8(p);
}

/// Rotation compatibility: a blob sealed under the current key still
/// decrypts to its plaintext after a rotation, unless the new key itself
/// opens the blob to text.
pub proof fn lemma_rotation_keeps_blobs(
    v: KeyRing,
    blob: Seq<char>,
    p: Seq<char>,
    id: Seq<char>,
    key: Seq<u8>,
    now: i64,
)
    requires
        ring_wf(v),
        v.current matches Some(c) && sealed_under(c.1, blob, p),
        key.len() == KEY_LEN,
        now <= i64::MAX - KEY_ROTATION_INTERVAL_MS,
        base64_decoded(blob) matches Some(b) && b.len() >= NONCE_LEN && !opens_to_text(
            key,
            b.subrange(0, NONCE_LEN as int),
            b.subrange(NONCE_LEN as int, b.len() as int),
        ),
    ensures
        ring_wf(rotated(v, id, key, now)),
        decrypted(rotated(v, id, key, now), blob) == Some(p),
{
    let old_key = (v.current->0).1;
    let w = rotated(v, id, key, now);
    let (n, c) = choose|n: Seq<u8>, c: Seq<u8>|
        n.len() == NONCE_LEN && base64_decoded(blob) == Some(n + c) && #[trigger] aes_gcm_open(
            old_key,
            n,
            c,
        ) == Some(encode_utf8(p));
    let b = n + c;
    assert(b.subrange(0, NONCE_LEN as int) =~= n);
    assert(b.subrange(NONCE_LEN as int, b.len() as int) =~= c);
    let keys = key_order(w);
    assert(keys[0] == key);
    assert(keys.drop_first()[0] == old_key);
    encode_utf8_valid_utf8(p);
    encode_utf8_decode_utf8(p);
    assert(first_opening(keys.drop_first(), n, c) == Some(p));
    assert forall|i: int| 0 <= i < w.history.len() implies (#[trigger] w.history[i]).1.len()
        == KEY_LEN by {
        if i < v.history.len() {
            assert(w.history[i] == v.history[i]);
        }
    }
}

proof fn lemma_no_opening(keys: Seq<Seq<u8>>, nonce: Seq<u8>, sealed: Seq<u8>)
    requires
        forall|i: int| 0 <= i < keys.len() ==> !opens_to_text(#[trigger] keys[i], nonce, sealed),
    ensures
        first_opening(keys, nonce, sealed) is None,
    decreases keys.len(),
{
    if keys.len() > 0 {
        assert(!opens_to_text(keys[0], nonce, sealed));
        assert forall|i: int| 0 <= i < keys.drop_first().len() implies !opens_to_text(
            #[trigger] keys.drop_first()[i],
            nonce,
            sealed,
        ) by {
            assert(keys.drop_first()[i] == keys[i + 1]);
        }
        lemma_no_opening(keys.drop_first(), nonce, sealed);
    }
}

/// A blob that no known key authenticates to text, such as one whose tag
/// bytes were corrupted, fails to decrypt.
pub proof fn lemma_unauthenticated_blob_fails(v: KeyRing, blob: Seq<char>)
    requires
        base64_decoded(blob) matches Some(b) && (b.len() < NONCE_LEN || forall|i: int|
            0 <= i < key_order(v).len() ==> !opens_to_text(
                #[trigger] key_order(v)[i],
                b.subrange(0, NONCE_LEN as int),
                b.subrange(NONCE_LEN as int, b.len() as int),
            )),
    ensures
        decrypted(v, blob) is None,
{
    let b = base64_decoded(blob)->0;
    if b.len() >= NONCE_LEN {
        lemma_no_opening(
            key_order(v),
            b.subrange(0, NONCE_LEN as int),
            b.subrange(NONCE_LEN as int, b.len() as int),
        );
    }
}

} // verus!
