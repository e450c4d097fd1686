//! Signed extension allowlist: wire schema, typed manifest, and the
//! four-gate install check (id on allowlist, version constraint, `.xpi`
//! SHA-256, detached Ed25519 signature).
use vstd::prelude::*;
use vstd::string::StringSliceAdditionalSpecFns;
use vstd::utf8::encode_utf8;
use crate::digest::{sha256, spec_sha256};
use crate::text::str_eq;
use super::encoding::{
    b64_dec, b64_decode, hex_decode_32, hex_encode, hex_encode_bytes, spec_decode_hex32,
};
use super::json::{
    decode_json, has_only_keys, json_field, key_in, obj_get, only_keys, spec_decode_json, JsonValue,
};
pub use super::version::{
    spec_parse_constraint, spec_satisfies, version_number, lemma_constraint_meaning, Version, VersionConstraint,
    VersionConstraintParseError, VersionParseError,
};

verus! {

/// Current allowlist manifest wire format version.
pub const ALLOWLIST_FORMAT_VERSION: u32 = 1;

// ── Identifiers, digests, keys ──────────────────────────────────────────

/// Extension id as it appears in a WebExtension manifest; compared as an
/// exact string.
#[derive(Debug, Clone, PartialEq, Eq, Hash)]
pub struct ExtensionId(pub String);

impl View for ExtensionId {
    type V = Seq<char>;

    open spec fn view(&self) -> Seq<char> {
        self.0@
    }
}

impl ExtensionId {
    pub fn new(s: &str) -> (r: Self)
        ensures
            r@ == s@,
    {
        ExtensionId(String::from_str(s))
    }

    pub fn as_str(&self) -> (r: &str)
        ensures
            r@ == self@,
    {
        self.0.as_str()
    }
}

/// Raw SHA-256 of the full `.xpi` bytes; wire form is lowercase hex.
#[derive(Debug, Clone, Copy, PartialEq, Eq, Hash)]
pub struct Sha256Hash(pub [u8; 32]);

/// Opaque hex parse error.
#[derive(Debug, Clone, Copy, PartialEq, Eq)]
pub struct HexParseError;

impl HexParseError {
    pub fn to_string(&self) -> (r: String)
        ensures
            r@ == "invalid hex"@,
    {
        String::from_str("invalid hex")
    }
}

impl Sha256Hash {
    /// The SHA-256 digest of `bytes`.
    pub fn of(bytes: &[u8]) -> (r: Self)
        ensures
            r.0@ == spec_sha256(bytes@),
    {
        Sha256Hash(sha256(bytes))
    }

    /// 64 lowercase hex digits.
    pub fn to_hex(self) -> (r: String)
        ensures
            r@ == hex_encode(self.0@),
    {
        hex_encode_bytes(&self.0)
    }

    /// Parses exactly 64 hex digits (either case).
    pub fn from_hex(s: &str) -> (r: Result<Self, HexParseError>)
        ensures
            r is Ok <==> spec_decode_hex32(s.spec_bytes()) is Some,
            r is Ok ==> r->Ok_0.0@ == spec_decode_hex32(s.spec_bytes())->0,
    {
        match hex_decode_32(s.as_bytes()) {
            Some(a) => Ok(Sha256Hash(a)),
            None => Err(HexParseError),
        }
    }
}

/// Raw 32-byte Ed25519 verifying key; wire form is unpadded URL-safe
/// base64.
#[derive(Debug, Clone, Copy, PartialEq, Eq, Hash)]
pub struct Ed25519PubKeyBytes(pub [u8; 32]);

/// Raw 64-byte detached Ed25519 signature.
#[derive(Debug, Clone, Copy, PartialEq, Eq, Hash)]
pub struct Ed25519SigBytes(pub [u8; 64]);

// ── Entries and manifests ───────────────────────────────────────────────

/// Abstract view of an [`AllowlistEntry`].
pub struct EntryModel {
    pub extension_id: Seq<char>,
    pub version_constraint: VersionConstraint,
    pub sha256_of_xpi: Seq<u8>,
    pub signing_pubkey: Seq<u8>,
}

/// Abstract view of an [`AllowlistManifest`].
pub struct ManifestModel {
    pub format_version: u32,
    pub manifest_version: u64,
    pub entries: Seq<EntryModel>,
}

/// One blessed extension in the curated allowlist.
#[derive(Debug, Clone, PartialEq, Eq)]
pub struct AllowlistEntry {
    pub extension_id: ExtensionId,
    pub version_constraint: VersionConstraint,
    pub sha256_of_xpi: Sha256Hash,
    pub signing_pubkey: Ed25519PubKeyBytes,
}

impl View for AllowlistEntry {
    type V = EntryModel;

    open spec fn view(&self) -> EntryModel {
        EntryModel {
            extension_id: self.extension_id@,
            version_constraint: self.version_constraint,
            sha256_of_xpi: self.sha256_of_xpi.0@,
            signing_pubkey: self.signing_pubkey.0@,
        }
    }
}

/// A parsed allowlist manifest.
#[derive(Debug, Clone, PartialEq, Eq)]
pub struct AllowlistManifest {
    /// Wire-format version; only [`ALLOWLIST_FORMAT_VERSION`] is accepted.
    pub format_version: u32,
    /// Monotonic revision counter.
    pub manifest_version: u64,
    pub entries: Vec<AllowlistEntry>,
}

impl View for AllowlistManifest {
    type V = ManifestModel;

    open spec fn view(&self) -> ManifestModel {
        ManifestModel {
            format_version: self.format_version,
            manifest_version: self.manifest_version,
            entries: self.entries@.map_values(|e: AllowlistEntry| e@),
        }
    }
}

/// The first entry with id `id`.
pub open spec fn lookup_entry(entries: Seq<EntryModel>, id: Seq<char>) -> Option<EntryModel>
    decreases entries.len(),
{
    if entries.len() == 0 {
        None
    } else if entries[0].extension_id == id {
        Some(entries[0])
    } else {
        lookup_entry(entries.drop_first(), id)
    }
}

impl AllowlistManifest {
    /// The first entry whose id is `id`.
    pub fn entry_for(&self, id: &ExtensionId) -> (r: Option<&AllowlistEntry>)
        ensures
            match r {
                Some(e) => lookup_entry(self@.entries, id@) == Some(e@),
                None => lookup_entry(self@.entries, id@) is None,
            },
    {
        let ghost all = self@.entries;
        let mut i: usize = 0;
        assert(all.skip(0) =~= all);
        while i < self.entries.len()
            invariant
                all == self@.entries,
                i <= self.entries@.len(),
                lookup_entry(all, id@) == lookup_entry(all.skip(i as int), id@),
            decreases self.entries@.len() - i,
        {
            assert(all.skip(i as int).drop_first() =~= all.skip(i + 1));
            assert(all.skip(i as int)[0] == self.entries@[i as int]@);
            if self.entries[i].extension_id.0 == id.0 {
                return Some(&self.entries[i]);
            }
            i = i + 1;
        }
        None
    }
}

// ── Wire schema ─────────────────────────────────────────────────────────

pub open spec fn deref_opt(o: Option<&JsonValue>) -> Option<JsonValue> {
    match o {
        Some(x) => Some(*x),
        None => None,
    }
}

pub open spec fn spec_json_string(v: Option<JsonValue>) -> Option<Seq<char>> {
    match v {
        Some(JsonValue::Str(s)) => Some(s@),
        _ => None,
    }
}

pub open spec fn spec_json_u64(v: Option<JsonValue>) -> Option<u64> {
    match v {
        Some(JsonValue::Number(Some(n))) => Some(n),
        _ => None,
    }
}

/// Member names of an entry object.
pub open spec fn entry_keys() -> Seq<&'static str> {
    seq!["extension_id", "version_constraint", "sha256_of_xpi", "signing_pubkey"]
}

/// Member names of a manifest object.
pub open spec fn manifest_keys() -> Seq<&'static str> {
    seq!["format_version", "manifest_version", "entries"]
}

/// An entry from its four field values: the id is a string, the
/// constraint a string that parses, the digest 64 hex digits, and the key
/// base64 of exactly 32 bytes.
pub open spec fn spec_entry_from_parts(
    id: Option<JsonValue>,
    vc: Option<JsonValue>,
    h: Option<JsonValue>,
    k: Option<JsonValue>,
) -> Option<EntryModel> {
    let id = spec_json_string(id);
    let vc = spec_json_string(vc);
    let h = spec_json_string(h);
    let k = spec_json_string(k);
    if id is Some && vc is Some && h is Some && k is Some {
        let c = spec_parse_constraint(vc->0);
        let hh = spec_decode_hex32(encode_utf8(h->0));
        let kk = b64_dec(encode_utf8(k->0));
        if c is Some && hh is Some && kk is Some && kk->0.len() == 32 {
            Some(
                EntryModel {
                    extension_id: id->0,
                    version_constraint: c->0,
                    sha256_of_xpi: hh->0,
                    signing_pubkey: kk->0,
                },
            )
        } else {
            None
        }
    } else {
        None
    }
}

/// An entry from JSON: an object with exactly the known members (unknown
/// members refused), or an array of the four fields in order.
pub open spec fn spec_entry_from_json(v: JsonValue) -> Option<EntryModel> {
    match v {
        JsonValue::Object(f) => if only_keys(f@, entry_keys()) {
            spec_entry_from_parts(
                obj_get(f@, "extension_id"@),
                obj_get(f@, "version_constraint"@),
                obj_get(f@, "sha256_of_xpi"@),
                obj_get(f@, "signing_pubkey"@),
            )
        } else {
            None
        },
        JsonValue::Array(a) => if a@.len() == 4 {
            spec_entry_from_parts(Some(a@[0]), Some(a@[1]), Some(a@[2]), Some(a@[3]))
        } else {
            None
        },
        _ => None,
    }
}

/// Every element is an entry.
pub open spec fn spec_entries_from_json(s: Seq<JsonValue>) -> Option<Seq<EntryModel>>
    decreases s.len(),
{
    if s.len() == 0 {
        Some(seq![])
    } else {
        match (spec_entries_from_json(s.drop_last()), spec_entry_from_json(s.last())) {
            (Some(p), Some(e)) => Some(p.push(e)),
            _ => None,
        }
    }
}

pub open spec fn spec_manifest_from_parts(
    fv: Option<JsonValue>,
    mv: Option<JsonValue>,
    en: Option<JsonValue>,
) -> Option<ManifestModel> {
    let fv = spec_json_u64(fv);
    let mv = spec_json_u64(mv);
    let en = match en {
        Some(JsonValue::Array(a)) => spec_entries_from_json(a@),
        _ => None,
    };
    if fv is Some && fv->0 <= u32::MAX && mv is Some && en is Some {
        Some(
            ManifestModel {
                format_version: fv->0 as u32,
                manifest_version: mv->0,
                entries: en->0,
            },
        )
    } else {
        None
    }
}

/// A manifest from JSON: an object with exactly the known members, or an
/// array of the three fields in order.
pub open spec fn spec_manifest_from_json(v: JsonValue) -> Option<ManifestModel> {
    match v {
        JsonValue::Object(f) => if only_keys(f@, manifest_keys()) {
            spec_manifest_from_parts(
                obj_get(f@, "format_version"@),
                obj_get(f@, "manifest_version"@),
                obj_get(f@, "entries"@),
            )
        } else {
            None
        },
        JsonValue::Array(a) => if a@.len() == 3 {
            spec_manifest_from_parts(Some(a@[0]), Some(a@[1]), Some(a@[2]))
        } else {
            None
        },
        _ => None,
    }
}

/// The entry list of a manifest document: the `entries` member of an
/// object, or the third element of a three-element array.
pub open spec fn manifest_entries_json(v: JsonValue) -> Option<Seq<JsonValue>> {
    match v {
        JsonValue::Object(f) => match obj_get(f@, "entries"@) {
            Some(JsonValue::Array(a)) => Some(a@),
            _ => None,
        },
        JsonValue::Array(a) => if a@.len() == 3 {
            match a@[2] {
                JsonValue::Array(x) => Some(x@),
                _ => None,
            }
        } else {
            None
        },
        _ => None,
    }
}

/// A member name that none of `names` is.
pub open spec fn unknown_member(f: Seq<(String, JsonValue)>, names: Seq<Seq<char>>) -> bool {
    exists|k: int| 0 <= k < f.len() && !names.contains(#[trigger] f[k].0@)
}

/// An object with a member that is not one of an entry's four fields.
pub open spec fn entry_with_unknown_member(x: JsonValue) -> bool {
    x matches JsonValue::Object(g) && unknown_member(
        g@,
        seq!["extension_id"@, "version_constraint"@, "sha256_of_xpi"@, "signing_pubkey"@],
    )
}

proof fn lemma_entries_fail(s: Seq<JsonValue>, i: int)
    requires
        0 <= i < s.len(),
        spec_entry_from_json(s[i]) is None,
    ensures
        spec_entries_from_json(s) is None,
    decreases s.len(),
{
    if i < s.len() - 1 {
        assert(s.drop_last()[i] == s[i]);
        lemma_entries_fail(s.drop_last(), i);
    }
}

proof fn lemma_unknown_member_not_only_keys(
    f: Seq<(String, JsonValue)>,
    keys: Seq<&'static str>,
    names: Seq<Seq<char>>,
)
    requires
        unknown_member(f, names),
        names.len() == keys.len(),
        forall|j: int| 0 <= j < keys.len() ==> (#[trigger] keys[j])@ == names[j],
    ensures
        !only_keys(f, keys),
{
    let k = choose|k: int| 0 <= k < f.len() && !names.contains(#[trigger] f[k].0@);
    if key_in(f[k].0@, keys) {
        let j = choose|j: int| 0 <= j < keys.len() && (#[trigger] keys[j])@ == f[k].0@;
        assert(names[j] == f[k].0@);
    }
}

/// Unknown members are refused, never dropped: a manifest document whose
/// top-level object has a member other than `format_version`,
/// `manifest_version` and `entries`, or one of whose entry objects has a
/// member other than `extension_id`, `version_constraint`, `sha256_of_xpi`
/// and `signing_pubkey`, is invalid JSON for the manifest.
pub proof fn lemma_unknown_members_rejected(v: JsonValue)
    ensures
        v matches JsonValue::Object(f) && unknown_member(
            f@,
            seq!["format_version"@, "manifest_version"@, "entries"@],
        ) ==> spec_check_manifest(Some(v)) == Err::<ManifestModel, AllowlistParseError>(
            AllowlistParseError::InvalidJson,
        ),
        (manifest_entries_json(v) matches Some(items) && exists|i: int|
            0 <= i < items.len() && entry_with_unknown_member(#[trigger] items[i])) ==> spec_check_manifest(Some(v)) == Err::<ManifestModel, AllowlistParseError>(
            AllowlistParseError::InvalidJson,
        ),
{
    let mnames = seq!["format_version"@, "manifest_version"@, "entries"@];
    let enames = seq!["extension_id"@, "version_constraint"@, "sha256_of_xpi"@, "signing_pubkey"@];
    if let JsonValue::Object(f) = v {
        if unknown_member(f@, mnames) {
            lemma_unknown_member_not_only_keys(f@, manifest_keys(), mnames);
        }
    }
    if let Some(items) = manifest_entries_json(v) {
        if exists|i: int| 0 <= i < items.len() && entry_with_unknown_member(#[trigger] items[i]) {
            let i = choose|i: int|
                0 <= i < items.len() && entry_with_unknown_member(#[trigger] items[i]);
            if let JsonValue::Object(g) = items[i] {
                lemma_unknown_member_not_only_keys(g@, entry_keys(), enames);
            }
            lemma_entries_fail(items, i);
        }
    }
}

/// No two entries share an id.
pub open spec fn ids_distinct(entries: Seq<EntryModel>) -> bool {
    forall|i: int, j: int|
        0 <= i < j < entries.len() ==> entries[i].extension_id != entries[j].extension_id
}

/// Parser-level errors; every message is opaque.
#[derive(Debug, Clone, Copy, PartialEq, Eq)]
pub enum AllowlistParseError {
    InvalidJson,
    UnsupportedFormatVersion,
    DuplicateExtensionId,
}

impl AllowlistParseError {
    pub fn to_string(&self) -> (r: String)
        ensures
            r@ == (match self {
                AllowlistParseError::InvalidJson => "allowlist: invalid json"@,
                AllowlistParseError::UnsupportedFormatVersion =>
                    "allowlist: unsupported format_version"@,
                AllowlistParseError::DuplicateExtensionId => "allowlist: duplicate extension id"@,
            }),
    {
        match self {
            AllowlistParseError::InvalidJson => String::from_str("allowlist: invalid json"),
            AllowlistParseError::UnsupportedFormatVersion => String::from_str(
                "allowlist: unsupported format_version",
            ),
            AllowlistParseError::DuplicateExtensionId => String::from_str(
                "allowlist: duplicate extension id",
            ),
        }
    }
}

/// What parsing a manifest document gives: the schema first, then the
/// format version, then distinct ids.
pub open spec fn spec_check_manifest(decoded: Option<JsonValue>) -> Result<
    ManifestModel,
    AllowlistParseError,
> {
    match decoded {
        None => Err(AllowlistParseError::InvalidJson),
        Some(v) => match spec_manifest_from_json(v) {
            None => Err(AllowlistParseError::InvalidJson),
            Some(m) => if m.format_version != ALLOWLIST_FORMAT_VERSION {
                Err(AllowlistParseError::UnsupportedFormatVersion)
            } else if !ids_distinct(m.entries) {
                Err(AllowlistParseError::DuplicateExtensionId)
            } else {
                Ok(m)
            },
        },
    }
}

fn json_string<'a>(v: Option<&'a JsonValue>) -> (r: Option<&'a String>)
    ensures
        match r {
            Some(s) => spec_json_string(deref_opt(v)) == Some(s@),
            None => spec_json_string(deref_opt(v)) is None,
        },
{
    match v {
        Some(JsonValue::Str(s)) => Some(s),
        _ => None,
    }
}

fn json_u64(v: Option<&JsonValue>) -> (r: Option<u64>)
    ensures
        r == spec_json_u64(deref_opt(v)),
{
    match v {
        Some(JsonValue::Number(Some(n))) => Some(*n),
        _ => None,
    }
}

fn entry_from_parts(
    id: Option<&JsonValue>,
    vc: Option<&JsonValue>,
    h: Option<&JsonValue>,
    k: Option<&JsonValue>,
) -> (r: Option<AllowlistEntry>)
    ensures
        match r {
            Some(e) => spec_entry_from_parts(deref_opt(id), deref_opt(vc), deref_opt(h), deref_opt(k))
                == Some(e@),
            None => spec_entry_from_parts(
                deref_opt(id),
                deref_opt(vc),
                deref_opt(h),
                deref_opt(k),
            ) is None,
        },
{
    let id = match json_string(id) {
        Some(s) => s,
        None => return None,
    };
    let vc = match json_string(vc) {
        Some(s) => s,
        None => return None,
    };
    let h = match json_string(h) {
        Some(s) => s,
        None => return None,
    };
    let k = match json_string(k) {
        Some(s) => s,
        None => return None,
    };
    let c = match VersionConstraint::parse(vc.as_str()) {
        Ok(c) => c,
        Err(_) => return None,
    };
    let hh = match Sha256Hash::from_hex(h.as_str()) {
        Ok(x) => x,
        Err(_) => return None,
    };
    let kk = match b64_decode(k.as_str()) {
        Ok(x) => x,
        Err(_) => return None,
    };
    if kk.len() != 32 {
        return None;
    }
    let mut key: [u8; 32] = [0u8; 32];
    let mut i: usize = 0;
    while i < 32
        invariant
            kk@.len() == 32,
            i <= 32,
            key@.len() == 32,
            forall|j: int| 0 <= j < i ==> key@[j] == kk@[j],
        decreases 32 - i,
    {
        key[i] = kk[i];
        i = i + 1;
    }
    assert(key@ =~= kk@);
    Some(
        AllowlistEntry {
            extension_id: ExtensionId(id.clone()),
            version_constraint: c,
            sha256_of_xpi: hh,
            signing_pubkey: Ed25519PubKeyBytes(key),
        },
    )
}

/// An entry from its JSON value.
pub fn entry_from_json(v: &JsonValue) -> (r: Option<AllowlistEntry>)
    ensures
        match r {
            Some(e) => spec_entry_from_json(*v) == Some(e@),
            None => spec_entry_from_json(*v) is None,
        },
{
    match v {
        JsonValue::Object(f) => {
            if !has_only_keys(f, &["extension_id", "version_constraint", "sha256_of_xpi", "signing_pubkey"]) {
                return None;
            }
            entry_from_parts(
                json_field(f, "extension_id"),
                json_field(f, "version_constraint"),
                json_field(f, "sha256_of_xpi"),
                json_field(f, "signing_pubkey"),
            )
        },
        JsonValue::Array(a) => {
            if a.len() != 4 {
                return None;
            }
            entry_from_parts(Some(&a[0]), Some(&a[1]), Some(&a[2]), Some(&a[3]))
        },
        _ => None,
    }
}

fn entries_from_json(a: &Vec<JsonValue>) -> (r: Option<Vec<AllowlistEntry>>)
    ensures
        match r {
            Some(es) => spec_entries_from_json(a@) == Some(
                es@.map_values(|e: AllowlistEntry| e@),
            ),
            None => spec_entries_from_json(a@) is None,
        },
{
    let mut out: Vec<AllowlistEntry> = Vec::new();
    let mut i: usize = 0;
    assert(a@.take(0) =~= Seq::<JsonValue>::empty());
    assert(out@.map_values(|e: AllowlistEntry| e@) =~= Seq::<EntryModel>::empty());
    while i < a.len()
        invariant
            i <= a@.len(),
            spec_entries_from_json(a@.take(i as int)) == Some(
                out@.map_values(|e: AllowlistEntry| e@),
            ),
        decreases a@.len() - i,
    {
        assert(a@.take(i + 1).drop_last() =~= a@.take(i as int));
        assert(a@.take(i + 1).last() == a@[i as int]);
        match entry_from_json(&a[i]) {
            Some(e) => {
                let ghost prev = out@;
                out.push(e);
                assert(out@.map_values(|e: AllowlistEntry| e@) =~= prev.map_values(
                    |e: AllowlistEntry| e@,
                ).push(e@));
            },
            None => {
                assert(spec_entries_from_json(a@.take(i + 1)) is None);
                proof {
                    lemma_entries_prefix_none(a@, i + 1);
                }
                return None;
            },
        }
        i = i + 1;
    }
    assert(a@.take(a@.len() as int) =~= a@);
    Some(out)
}

proof fn lemma_entries_prefix_none(s: Seq<JsonValue>, k: int)
    requires
        0 <= k <= s.len(),
        spec_entries_from_json(s.take(k)) is None,
    ensures
        spec_entries_from_json(s) is None,
    decreases s.len() - k,
{
    if k < s.len() {
        assert(s.take(k + 1).drop_last() =~= s.take(k));
        lemma_entries_prefix_none(s, k + 1);
    } else {
        assert(s.take(k) =~= s);
    }
}

fn manifest_from_parts(fv: Option<&JsonValue>, mv: Option<&JsonValue>, en: Option<&JsonValue>) -> (r:
    Option<AllowlistManifest>)
    ensures
        match r {
            Some(m) => spec_manifest_from_parts(deref_opt(fv), deref_opt(mv), deref_opt(en)) == Some(
                m@,
            ),
            None => spec_manifest_from_parts(deref_opt(fv), deref_opt(mv), deref_opt(en)) is None,
        },
{
    let fv = match json_u64(fv) {
        Some(n) => n,
        None => return None,
    };
    let mv = match json_u64(mv) {
        Some(n) => n,
        None => return None,
    };
    let entries = match en {
        Some(JsonValue::Array(a)) => match entries_from_json(a) {
            Some(es) => es,
            None => return None,
        },
        _ => return None,
    };
    if fv > 0xffff_ffff {
        return None;
    }
    Some(AllowlistManifest { format_version: fv as u32, manifest_version: mv, entries })
}

/// A manifest from its JSON value.
pub fn manifest_from_json(v: &JsonValue) -> (r: Option<AllowlistManifest>)
    ensures
        match r {
            Some(m) => spec_manifest_from_json(*v) == Some(m@),
            None => spec_manifest_from_json(*v) is None,
        },
{
    match v {
        JsonValue::Object(f) => {
            if !has_only_keys(f, &["format_version", "manifest_version", "entries"]) {
                return None;
            }
            manifest_from_parts(
                json_field(f, "format_version"),
                json_field(f, "manifest_version"),
                json_field(f, "entries"),
            )
        },
        JsonValue::Array(a) => {
            if a.len() != 3 {
                return None;
            }
            manifest_from_parts(Some(&a[0]), Some(&a[1]), Some(&a[2]))
        },
        _ => None,
    }
}

fn has_duplicate_id(entries: &Vec<AllowlistEntry>) -> (r: bool)
    ensures
        r == !ids_distinct(entries@.map_values(|e: AllowlistEntry| e@)),
{
    let ghost es = entries@.map_values(|e: AllowlistEntry| e@);
    let mut i: usize = 0;
    while i < entries.len()
        invariant
            es == entries@.map_values(|e: AllowlistEntry| e@),
            i <= entries@.len(),
            forall|a: int, b: int|
                0 <= a < b < entries@.len() && a < i ==> es[a].extension_id != es[b].extension_id,
        decreases entries@.len() - i,
    {
        let mut j = i + 1;
        while j < entries.len()
            invariant
                es == entries@.map_values(|e: AllowlistEntry| e@),
                i < j <= entries@.len(),
                forall|b: int| i < b < j ==> es[i as int].extension_id != es[b].extension_id,
            decreases entries@.len() - j,
        {
            if entries[i].extension_id.0 == entries[j].extension_id.0 {
                assert(es[i as int].extension_id == es[j as int].extension_id);
                return true;
            }
            j = j + 1;
        }
        i = i + 1;
    }
    false
}

/// Checks a decoded manifest document: schema, format version, distinct
/// ids.
pub fn manifest_from_decoded(decoded: Option<JsonValue>) -> (r: Result<
    AllowlistManifest,
    AllowlistParseError,
>)
    ensures
        match r {
            Ok(m) => spec_check_manifest(decoded) == Ok::<ManifestModel, AllowlistParseError>(m@),
            Err(e) => spec_check_manifest(decoded) == Err::<ManifestModel, AllowlistParseError>(e),
        },
{
    let v = match decoded {
        Some(v) => v,
        None => return Err(AllowlistParseError::InvalidJson),
    };
    let m = match manifest_from_json(&v) {
        Some(m) => m,
        None => return Err(AllowlistParseError::InvalidJson),
    };
    if m.format_version != ALLOWLIST_FORMAT_VERSION {
        return Err(AllowlistParseError::UnsupportedFormatVersion);
    }
    if has_duplicate_id(&m.entries) {
        return Err(AllowlistParseError::DuplicateExtensionId);
    }
    Ok(m)
}

/// Parses the JSON bytes of an allowlist manifest. Rejects an unknown
/// `format_version` and duplicate ids. Does not verify the detached
/// signature.
pub fn parse_allowlist_manifest(bytes: &[u8]) -> (r: Result<AllowlistManifest, AllowlistParseError>)
    ensures
        match r {
            Ok(m) => spec_check_manifest(spec_decode_json(bytes@)) == Ok::<
                ManifestModel,
                AllowlistParseError,
            >(m@),
            Err(e) => spec_check_manifest(spec_decode_json(bytes@)) == Err::<
                ManifestModel,
                AllowlistParseError,
            >(e),
        },
{
    manifest_from_decoded(decode_json(bytes))
}

// ── Signature verification ──────────────────────────────────────────────

/// Why a signature check failed.
#[derive(Debug, Clone, Copy, PartialEq, Eq)]
pub enum SignatureVerifyError {
    /// The verifier is not wired yet; treated like a mismatch.
    ModuleNotReady,
    Mismatch,
}

impl SignatureVerifyError {
    pub fn to_string(&self) -> (r: String)
        ensures
            r@ == (match self {
                SignatureVerifyError::ModuleNotReady =>
                    "allowlist verifier: module 65 / 87 not ready"@,
                SignatureVerifyError::Mismatch => "allowlist verifier: signature mismatch"@,
            }),
    {
        match self {
            SignatureVerifyError::ModuleNotReady => String::from_str(
                "allowlist verifier: module 65 / 87 not ready",
            ),
            SignatureVerifyError::Mismatch => String::from_str(
                "allowlist verifier: signature mismatch",
            ),
        }
    }
}

/// Signature verification surface. `accepts` says which
/// `(pubkey, msg, sig)` triples an implementation lets through.
pub trait SignatureVerifier {
    spec fn accepts(&self, pubkey: Seq<u8>, msg: Seq<u8>, sig: Seq<u8>) -> bool;

    /// The full answer for a triple: `Ok` exactly when it is accepted,
    /// otherwise the verifier's own error.
    spec fn outcome(&self, pubkey: Seq<u8>, msg: Seq<u8>, sig: Seq<u8>) -> Result<
        (),
        SignatureVerifyError,
    >;

    fn verify_ed25519(&self, pubkey: &Ed25519PubKeyBytes, msg: &[u8], sig: &Ed25519SigBytes) -> (r:
        Result<(), SignatureVerifyError>)
        ensures
            r is Ok <==> self.accepts(pubkey.0@, msg@, sig.0@),
            r == self.outcome(pubkey.0@, msg@, sig.0@),
    ;
}

/// Refuses every signature (`ModuleNotReady`).
#[derive(Debug, Default, Clone, Copy)]
pub struct RejectAllVerifier;

impl SignatureVerifier for RejectAllVerifier {
    open spec fn accepts(&self, pubkey: Seq<u8>, msg: Seq<u8>, sig: Seq<u8>) -> bool {
        false
    }

    open spec fn outcome(&self, pubkey: Seq<u8>, msg: Seq<u8>, sig: Seq<u8>) -> Result<
        (),
        SignatureVerifyError,
    > {
        Err(SignatureVerifyError::ModuleNotReady)
    }

    fn verify_ed25519(&self, pubkey: &Ed25519PubKeyBytes, msg: &[u8], sig: &Ed25519SigBytes) -> (r:
        Result<(), SignatureVerifyError>)
        ensures
            r == Err::<(), SignatureVerifyError>(SignatureVerifyError::ModuleNotReady),
    {
        Err(SignatureVerifyError::ModuleNotReady)
    }
}

/// Accepts exactly the pre-trusted `(pubkey, msg, sig)` triples.
#[derive(Debug, Default, Clone)]
pub struct InMemoryTrustedVerifier {
    trusted: Vec<(Ed25519PubKeyBytes, Vec<u8>, Ed25519SigBytes)>,
}

pub open spec fn triple_view(t: (Ed25519PubKeyBytes, Vec<u8>, Ed25519SigBytes)) -> (
    Seq<u8>,
    Seq<u8>,
    Seq<u8>,
) {
    (t.0.0@, t.1@, t.2.0@)
}

impl InMemoryTrustedVerifier {
    /// The trusted triples, in the order they were added.
    pub closed spec fn trusted_triples(&self) -> Seq<(Seq<u8>, Seq<u8>, Seq<u8>)> {
        self.trusted@.map_values(|t: (Ed25519PubKeyBytes, Vec<u8>, Ed25519SigBytes)| triple_view(t))
    }

    pub fn new() -> (r: Self)
        ensures
            r.trusted_triples() == Seq::<(Seq<u8>, Seq<u8>, Seq<u8>)>::empty(),
    {
        let r = InMemoryTrustedVerifier { trusted: Vec::new() };
        assert(r.trusted_triples() =~= Seq::<(Seq<u8>, Seq<u8>, Seq<u8>)>::empty());
        r
    }

    /// Adds one trusted triple.
    pub fn trust(self, pubkey: Ed25519PubKeyBytes, msg: Vec<u8>, sig: Ed25519SigBytes) -> (r: Self)
        ensures
            r.trusted_triples() == self.trusted_triples().push((pubkey.0@, msg@, sig.0@)),
    {
        let mut me = self;
        me.trusted.push((pubkey, msg, sig));
        assert(me.trusted_triples() =~= self.trusted_triples().push((pubkey.0@, msg@, sig.0@)));
        me
    }
}

/// Whether two byte strings are equal.
pub fn bytes_equal(a: &[u8], b: &[u8]) -> (r: bool)
    ensures
        r == (a@ == b@),
{
    if a.len() != b.len() {
        return false;
    }
    let mut i: usize = 0;
    while i < a.len()
        invariant
            a@.len() == b@.len(),
            i <= a@.len(),
            forall|k: int| 0 <= k < i ==> a@[k] == b@[k],
        decreases a@.len() - i,
    {
        if a[i] != b[i] {
            assert(a@[i as int] != b@[i as int]);
            return false;
        }
        i = i + 1;
    }
    assert(a@ =~= b@);
    true
}

impl SignatureVerifier for InMemoryTrustedVerifier {
    open spec fn accepts(&self, pubkey: Seq<u8>, msg: Seq<u8>, sig: Seq<u8>) -> bool {
        self.trusted_triples().contains((pubkey, msg, sig))
    }

    open spec fn outcome(&self, pubkey: Seq<u8>, msg: Seq<u8>, sig: Seq<u8>) -> Result<
        (),
        SignatureVerifyError,
    > {
        if self.accepts(pubkey, msg, sig) {
            Ok(())
        } else {
            Err(SignatureVerifyError::Mismatch)
        }
    }

    fn verify_ed25519(&self, pubkey: &Ed25519PubKeyBytes, msg: &[u8], sig: &Ed25519SigBytes) -> (r:
        Result<(), SignatureVerifyError>)
        ensures
            r is Err ==> r == Err::<(), SignatureVerifyError>(SignatureVerifyError::Mismatch),
    {
        let ghost ts = self.trusted_triples();
        let mut i: usize = 0;
        while i < self.trusted.len()
            invariant
                ts == self.trusted_triples(),
                ts.len() == self.trusted@.len(),
                i <= self.trusted@.len(),
                forall|k: int| 0 <= k < i ==> ts[k] != (pubkey.0@, msg@, sig.0@),
            decreases self.trusted@.len() - i,
        {
            let t = &self.trusted[i];
            assert(ts[i as int] == triple_view(self.trusted@[i as int]));
            if bytes_equal(&t.0.0, &pubkey.0) && bytes_equal(t.1.as_slice(), msg) && bytes_equal(
                &t.2.0,
                &sig.0,
            ) {
                assert(ts[i as int] == (pubkey.0@, msg@, sig.0@));
                return Ok(());
            }
            i = i + 1;
        }
        Err(SignatureVerifyError::Mismatch)
    }
}

/// Verifies a detached signature over the literal bytes of a manifest
/// file with the root key.
pub fn verify_manifest_signature<V: SignatureVerifier>(
    verifier: &V,
    root_pubkey: &Ed25519PubKeyBytes,
    manifest_bytes: &[u8],
    sig: &Ed25519SigBytes,
) -> (r: Result<(), SignatureVerifyError>)
    ensures
        r is Ok <==> verifier.accepts(root_pubkey.0@, manifest_bytes@, sig.0@),
        r == verifier.outcome(root_pubkey.0@, manifest_bytes@, sig.0@),
{
    verifier.verify_ed25519(root_pubkey, manifest_bytes, sig)
}

// ── Install gate ────────────────────────────────────────────────────────

/// An `.xpi` install candidate.
#[derive(Debug, Clone)]
pub struct InstallCandidate<'a> {
    pub extension_id: ExtensionId,
    pub version: Version,
    /// Raw `.xpi` bytes; hashed by [`verify_install`].
    pub xpi_bytes: &'a [u8],
    /// Detached signature shipped with the `.xpi`.
    pub xpi_signature: Ed25519SigBytes,
}

/// Why an install candidate was rejected: the first failing gate.
#[derive(Debug, Clone, Copy, PartialEq, Eq)]
pub enum InstallVerifyError {
    /// (a) id not on the allowlist.
    NotOnAllowlist,
    /// (b) version does not satisfy the entry's constraint.
    VersionConstraintUnsatisfied,
    /// (c) `.xpi` digest differs from the entry's.
    XpiHashMismatch,
    /// (d) detached signature rejected.
    SignatureMismatch,
}

impl InstallVerifyError {
    pub fn to_string(&self) -> (r: String)
        ensures
            r@ == (match self {
                InstallVerifyError::NotOnAllowlist => "install: extension id not on allowlist"@,
                InstallVerifyError::VersionConstraintUnsatisfied =>
                    "install: version does not satisfy allowlist constraint"@,
                InstallVerifyError::XpiHashMismatch => "install: xpi hash mismatch"@,
                InstallVerifyError::SignatureMismatch => "install: signature mismatch"@,
            }),
    {
        match self {
            InstallVerifyError::NotOnAllowlist => String::from_str(
                "install: extension id not on allowlist",
            ),
            InstallVerifyError::VersionConstraintUnsatisfied => String::from_str(
                "install: version does not satisfy allowlist constraint",
            ),
            InstallVerifyError::XpiHashMismatch => String::from_str("install: xpi hash mismatch"),
            InstallVerifyError::SignatureMismatch => String::from_str(
                "install: signature mismatch",
            ),
        }
    }
}

/// The outcome of the four gates, in order, for a candidate whose `.xpi`
/// digest is `digest` and whose signature `sig_ok` says is accepted for a
/// given entry key.
pub open spec fn spec_install_gates(
    m: ManifestModel,
    id: Seq<char>,
    v: Version,
    digest: Seq<u8>,
    sig_ok: spec_fn(Seq<u8>) -> bool,
) -> Result<EntryModel, InstallVerifyError> {
    match lookup_entry(m.entries, id) {
        None => Err(InstallVerifyError::NotOnAllowlist),
        Some(e) => if !spec_satisfies(e.version_constraint, v) {
            Err(InstallVerifyError::VersionConstraintUnsatisfied)
        } else if digest != e.sha256_of_xpi {
            Err(InstallVerifyError::XpiHashMismatch)
        } else if !sig_ok(e.signing_pubkey) {
            Err(InstallVerifyError::SignatureMismatch)
        } else {
            Ok(e)
        },
    }
}

/// `lookup_entry` finds the first entry with the id, and finds none only
/// when no entry has it.
proof fn lemma_lookup_entry(entries: Seq<EntryModel>, id: Seq<char>)
    ensures
        lookup_entry(entries, id) matches Some(e) ==> exists|i: int|
            0 <= i < entries.len() && #[trigger] entries[i] == e && e.extension_id == id && (forall|
                j: int,
            | 0 <= j < i ==> (#[trigger] entries[j]).extension_id != id),
        lookup_entry(entries, id) is None ==> forall|i: int|
            0 <= i < entries.len() ==> (#[trigger] entries[i]).extension_id != id,
    decreases entries.len(),
{
    if entries.len() > 0 {
        let rest = entries.drop_first();
        lemma_lookup_entry(rest, id);
        if entries[0].extension_id != id {
            if let Some(e) = lookup_entry(entries, id) {
                let k = choose|k: int|
                    0 <= k < rest.len() && #[trigger] rest[k] == e && e.extension_id == id
                        && (forall|j: int| 0 <= j < k ==> (#[trigger] rest[j]).extension_id != id);
                assert(entries[k + 1] == e);
                assert forall|j: int| 0 <= j < k + 1 implies (#[trigger] entries[j]).extension_id
                    != id by {
                    if j > 0 {
                        assert(entries[j] == rest[j - 1]);
                    }
                }
            } else {
                assert forall|i: int| 0 <= i < entries.len() implies (#[trigger] entries[
                    i
                ]).extension_id != id by {
                    if i > 0 {
                        assert(entries[i] == rest[i - 1]);
                    }
                }
            }
        }
    }
}

/// What an accepted install means, in terms of the candidate alone: the
/// entry returned is the manifest's first entry for the candidate's id;
/// the candidate's version equals the entry's pin, or for a floor has a
/// number at least the floor's; the `.xpi` digest is the entry's; and the
/// signature is accepted under the entry's key. A listed candidate whose
/// version misses the entry's constraint, pin or floor, is refused for
/// its version.
pub proof fn lemma_install_gates_meaning(
    m: ManifestModel,
    id: Seq<char>,
    v: Version,
    digest: Seq<u8>,
    sig_ok: spec_fn(Seq<u8>) -> bool,
)
    ensures
        spec_install_gates(m, id, v, digest, sig_ok) matches Ok(e) ==> {
            &&& exists|i: int|
                0 <= i < m.entries.len() && #[trigger] m.entries[i] == e && e.extension_id == id
                    && (forall|j: int|
                    0 <= j < i ==> (#[trigger] m.entries[j]).extension_id != id)
            &&& match e.version_constraint {
                VersionConstraint::Exact(w) => v == w,
                VersionConstraint::AtLeast(f) => version_number(f) <= version_number(v),
            }
            &&& digest == e.sha256_of_xpi
            &&& sig_ok(e.signing_pubkey)
        },
        (forall|i: int| 0 <= i < m.entries.len() ==> (#[trigger] m.entries[i]).extension_id != id)
            ==> spec_install_gates(m, id, v, digest, sig_ok) == Err::<
            EntryModel,
            InstallVerifyError,
        >(InstallVerifyError::NotOnAllowlist),
        lookup_entry(m.entries, id) matches Some(e) && !(match e.version_constraint {
            VersionConstraint::Exact(w) => v == w,
            VersionConstraint::AtLeast(f) => version_number(f) <= version_number(v),
        }) ==> spec_install_gates(m, id, v, digest, sig_ok) == Err::<
            EntryModel,
            InstallVerifyError,
        >(InstallVerifyError::VersionConstraintUnsatisfied),
{
    lemma_lookup_entry(m.entries, id);
    if let Some(e) = lookup_entry(m.entries, id) {
        lemma_constraint_meaning(e.version_constraint, v);
    } else {
        if exists|i: int| 0 <= i < m.entries.len() && (#[trigger] m.entries[i]).extension_id == id {
            let i = choose|i: int| 0 <= i < m.entries.len() && (#[trigger] m.entries[i]).extension_id == id;
            assert(m.entries[i].extension_id == id);
        }
    }
    if forall|i: int| 0 <= i < m.entries.len() ==> (#[trigger] m.entries[i]).extension_id != id {
        if let Some(e) = lookup_entry(m.entries, id) {
            let i = choose|i: int|
                0 <= i < m.entries.len() && #[trigger] m.entries[i] == e && e.extension_id == id
                    && (forall|j: int| 0 <= j < i ==> (#[trigger] m.entries[j]).extension_id != id);
            assert(m.entries[i].extension_id == id);
        }
    }
}

/// Whether the verifier accepts the candidate's signature under `key`.
pub open spec fn candidate_sig_ok<V: SignatureVerifier>(
    verifier: V,
    c: InstallCandidate,
) -> spec_fn(Seq<u8>) -> bool {
    |key: Seq<u8>| verifier.accepts(key, c.xpi_bytes@, c.xpi_signature.0@)
}

/// Result view of an install gate.
pub open spec fn install_result_view(r: Result<&AllowlistEntry, InstallVerifyError>) -> Result<
    EntryModel,
    InstallVerifyError,
> {
    match r {
        Ok(e) => Ok(e@),
        Err(x) => Err(x),
    }
}

/// The four gates for a candidate whose `.xpi` digest is `digest`.
pub fn verify_install_with_digest<'m, V: SignatureVerifier>(
    candidate: &InstallCandidate<'_>,
    manifest: &'m AllowlistManifest,
    digest: &Sha256Hash,
    verifier: &V,
) -> (r: Result<&'m AllowlistEntry, InstallVerifyError>)
    ensures
        install_result_view(r) == spec_install_gates(
            manifest@,
            candidate.extension_id@,
            candidate.version,
            digest.0@,
            candidate_sig_ok(*verifier, *candidate),
        ),
{
    let entry = match manifest.entry_for(&candidate.extension_id) {
        Some(e) => e,
        None => return Err(InstallVerifyError::NotOnAllowlist),
    };
    if !entry.version_constraint.satisfies(&candidate.version) {
        return Err(InstallVerifyError::VersionConstraintUnsatisfied);
    }
    if !bytes_equal(&digest.0, &entry.sha256_of_xpi.0) {
        return Err(InstallVerifyError::XpiHashMismatch);
    }
    match verifier.verify_ed25519(&entry.signing_pubkey, candidate.xpi_bytes, &candidate.xpi_signature) {
        Ok(()) => Ok(entry),
        Err(_) => Err(InstallVerifyError::SignatureMismatch),
    }
}

/// Gates an install candidate against the manifest: (a) id on allowlist,
/// (b) version satisfies the constraint, (c) `.xpi` SHA-256 matches,
/// (d) detached signature verifies; the first failing gate is reported.
pub fn verify_install<'m, V: SignatureVerifier>(
    candidate: &InstallCandidate<'_>,
    manifest: &'m AllowlistManifest,
    verifier: &V,
) -> (r: Result<&'m AllowlistEntry, InstallVerifyError>)
    ensures
        install_result_view(r) == spec_install_gates(
            manifest@,
            candidate.extension_id@,
            candidate.version,
            spec_sha256(candidate.xpi_bytes@),
            candidate_sig_ok(*verifier, *candidate),
        ),
{
    let actual = Sha256Hash::of(candidate.xpi_bytes);
    verify_install_with_digest(candidate, manifest, &actual, verifier)
}

} // verus!
