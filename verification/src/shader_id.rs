//! Fresh identifiers and import paths for shaders that have none of their own.
use vstd::prelude::*;
use vstd::arithmetic::power2::pow2;

verus! {

/// Whether a 128-bit value is a random (version 4, RFC 4122 variant) UUID:
/// its version nibble is 4 and its two variant bits are `10`.
pub open spec fn is_random_uuid(u: u128) -> bool {
    &&& (u >> 76u128) & 0xfu128 == 4
    &&& (u >> 62u128) & 0x3u128 == 2
}

/// The lowercase hexadecimal digit for a value below 16.
pub open spec fn hex_digit(n: int) -> char {
    if n < 10 {
        (48 + n) as char
    } else {
        (87 + n) as char
    }
}

/// The `k`-th hexadecimal digit of a UUID, most significant first.
pub open spec fn uuid_nibble(u: u128, k: int) -> int {
    (u as int / pow2((4 * (31 - k)) as nat) as int) % 16
}

/// Whether position `p` of the hyphenated form holds a hyphen.
pub open spec fn is_hyphen_position(p: int) -> bool {
    p == 8 || p == 13 || p == 18 || p == 23
}

/// Number of hyphens before position `p` of the hyphenated form.
pub open spec fn hyphens_before(p: int) -> int {
    if p > 23 {
        4
    } else if p > 18 {
        3
    } else if p > 13 {
        2
    } else if p > 8 {
        1
    } else {
        0
    }
}

/// The hyphenated lowercase form of a UUID: its 32 hexadecimal digits in
/// groups of 8, 4, 4, 4 and 12, separated by hyphens.
pub open spec fn uuid_hyphenated(u: u128) -> Seq<char> {
    Seq::new(
        36,
        |p: int|
            if is_hyphen_position(p) {
                '-'
            } else {
                hex_digit(uuid_nibble(u, p - hyphens_before(p)))
            },
    )
}

/// The text with every hyphen replaced by an underscore.
pub open spec fn underscored(s: Seq<char>) -> Seq<char> {
    s.map_values(|c: char| if c == '-' { '_' } else { c })
}

/// A fresh random UUID from `uuid::Uuid::new_v4`, as its 128-bit value.
/// The crate masks random bits so that the version nibble is 4 and the variant
/// bits are `10`; that is all that is claimed of the value.
#[verifier::external_body]
fn random_uuid() -> (u: u128)
    ensures
        is_random_uuid(u),
{
    uuid::Uuid::new_v4().as_u128()
}

/// The `to_string` of `uuid::Uuid::from_u128(u)`; the crate's `Display`
/// writes the hyphenated lowercase form, which is what is claimed.
#[verifier::external_body]
fn uuid_text(u: u128) -> (s: String)
    ensures
        s@ == uuid_hyphenated(u),
{
    uuid::Uuid::from_u128(u).to_string()
}

/// The shader identifier made from a UUID: its hyphenated form with the
/// hyphens turned into underscores, so that it can stand in a WGSL path.
pub fn shader_id_from_uuid(u: u128) -> (id: String)
    ensures
        id@ == underscored(uuid_hyphenated(u)),
{
    let text = uuid_text(u);
    let s = text.as_str();
    let n = s.unicode_len();
    let mut id = String::new();
    let mut i: usize = 0;
    while i < n
        invariant
            i <= n,
            n == s@.len(),
            s@ == uuid_hyphenated(u),
            id@ =~= underscored(s@).subrange(0, i as int),
        decreases n - i,
    {
        let c = s.get_char(i);
        if c == '-' {
            proof {
                reveal_strlit("_");
            }
            id.append("_");
        } else {
            id.append(s.substring_char(i, i + 1));
        }
        i = i + 1;
    }
    assert(id@ =~= underscored(s@));
    id
}

/// A fresh shader identifier: the underscored form of some random UUID.
pub fn generate_shader_id() -> (id: String)
    ensures
        exists|u: u128| is_random_uuid(u) && id@ == underscored(uuid_hyphenated(u)),
{
    let u = random_uuid();
    shader_id_from_uuid(u)
}

/// Prefix of the import paths given to shaders that have none.
pub const GENERATED_PATH_PREFIX: &'static str = "smud::generated::";

/// The import path for a shader with the given identifier.
pub fn generated_import_path(id: &str) -> (path: String)
    ensures
        path@ == GENERATED_PATH_PREFIX@ + id@,
{
    let mut path = String::from_str(GENERATED_PATH_PREFIX);
    path.append(id);
    path
}

/// The generated import paths of two UUIDs that differ in their last
/// hexadecimal digit differ.
proof fn lemma_generated_paths_differ(u: u128, v: u128)
    requires
        u % 16 != v % 16,
    ensures
        GENERATED_PATH_PREFIX@ + underscored(uuid_hyphenated(u)) != GENERATED_PATH_PREFIX@
            + underscored(uuid_hyphenated(v)),
{
    vstd::arithmetic::power2::lemma2_to64();
    let a = GENERATED_PATH_PREFIX@ + underscored(uuid_hyphenated(u));
    let b = GENERATED_PATH_PREFIX@ + underscored(uuid_hyphenated(v));
    let n = GENERATED_PATH_PREFIX@.len() as int;
    assert(((4 * (31 - 31int)) as nat) == 0nat);
    assert(pow2(0nat) as int == 1);
    assert(u as int / 1int == u as int);
    assert(v as int / 1int == v as int);
    assert(uuid_nibble(u, 31) == u % 16);
    assert(uuid_nibble(v, 31) == v % 16);
    let cu = hex_digit(uuid_nibble(u, 31));
    let cv = hex_digit(uuid_nibble(v, 31));
    assert(uuid_hyphenated(u)[35] == cu);
    assert(uuid_hyphenated(v)[35] == cv);
    assert(cu != cv);
    assert(cu != '-' && cv != '-');
    assert(a[n + 35] == cu);
    assert(b[n + 35] == cv);
}

/// A fresh generated import path for a shader other than the one that has
/// `taken`: the path of a random UUID, never equal to `taken`. (Should the
/// random UUID give `taken` itself, its last bit is flipped, which keeps it a
/// random UUID.)
pub fn generated_import_path_avoiding(taken: &str) -> (path: String)
    ensures
        path@ != taken@,
        exists|u: u128|
            is_random_uuid(u) && path@ == GENERATED_PATH_PREFIX@ + underscored(uuid_hyphenated(u)),
{
    let u = random_uuid();
    let id = shader_id_from_uuid(u);
    let path = generated_import_path(id.as_str());
    let taken_text = String::from_str(taken);
    if path == taken_text {
        let v = u ^ 1u128;
        proof {
            assert(is_random_uuid(v) && u % 16 != v % 16) by (bit_vector)
                requires
                    v == u ^ 1u128,
                    (u >> 76u128) & 0xfu128 == 4,
                    (u >> 62u128) & 0x3u128 == 2,
            ;
            lemma_generated_paths_differ(u, v);
        }
        let other = shader_id_from_uuid(v);
        generated_import_path(other.as_str())
    } else {
        path
    }
}

/// The import path to use for a loaded shader, and whether it must be given
/// to the shader: its own path if it has one, else a fresh generated path.
pub fn import_path_or_generated(own_path: Option<String>) -> (chosen: (String, bool))
    ensures
        match own_path {
            Some(p) => chosen.0@ == p@ && !chosen.1,
            None => chosen.1 && exists|u: u128|
                is_random_uuid(u) && chosen.0@ == GENERATED_PATH_PREFIX@ + underscored(
                    uuid_hyphenated(u),
                ),
        },
{
    match own_path {
        Some(p) => (p, false),
        None => {
            let id = generate_shader_id();
            (generated_import_path(id.as_str()), true)
        },
    }
}

} // verus!
