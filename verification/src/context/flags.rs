//! Feature flags for the staged rollout of the context pipeline, with a
//! per-user sticky canary.
use vstd::prelude::*;

use std::collections::HashMap;

use crate::keyed::string_map_get;
use crate::text::hex_bytes;

verus! {

/// `uuid::Uuid`, carried through opaquely.
#[verifier::external_type_specification]
#[verifier::external_body]
pub struct ExUuid(uuid::Uuid);

/// `<uuid::Uuid as Clone>::clone`.  A `Uuid` is a copyable 16-byte value, so
/// the clone is claimed equal to the original.
pub assume_specification[<uuid::Uuid as Clone>::clone](u: &uuid::Uuid) -> (r: uuid::Uuid)
    ensures
        r == *u,
;

/// `Uuid::new_v4()`.  Nothing is promised of it: it is random.
#[verifier::external_body]
pub(crate) fn random_uuid() -> uuid::Uuid {
    uuid::Uuid::new_v4()
}

/// A lowercase hexadecimal digit.
pub open spec fn lower_hex_digit(c: char) -> bool {
    ('0' <= c && c <= '9') || ('a' <= c && c <= 'f')
}

/// A UUID in its hyphenated lowercase form: 36 characters, hyphens at
/// positions 8, 13, 18 and 23, lowercase hexadecimal digits elsewhere.
pub open spec fn hyphenated_uuid_text(t: Seq<char>) -> bool {
    &&& t.len() == 36
    &&& forall|i: int|
        0 <= i < 36 ==> if i == 8 || i == 13 || i == 18 || i == 23 {
            #[trigger] t[i] == '-'
        } else {
            lower_hex_digit(t[i])
        }
}

/// The hyphenated lowercase form of a UUID's 16 bytes: groups of 4, 2, 2,
/// 2 and 6 bytes, each byte as two lowercase hexadecimal digits, the groups
/// joined by hyphens.
pub open spec fn hyphenated_hex(b: Seq<u8>) -> Seq<char> {
    hex_bytes(b.subrange(0, 4)) + "-"@ + hex_bytes(b.subrange(4, 6)) + "-"@ + hex_bytes(
        b.subrange(6, 8),
    ) + "-"@ + hex_bytes(b.subrange(8, 10)) + "-"@ + hex_bytes(b.subrange(10, 16))
}

/// `u.to_string()`: `Uuid`'s `Display` writes the hyphenated lowercase form
/// of the UUID's bytes (`format_hyphenated`), 36 characters.
#[verifier::external_body]
pub(crate) fn uuid_to_string(u: &uuid::Uuid) -> (r: String)
    ensures
        r@ == hyphenated_hex(uuid_bytes_of(*u)),
        hyphenated_uuid_text(r@),
{
    u.to_string()
}

/// The text of a fresh random UUID: the hyphenated lowercase text of some
/// UUID.
pub(crate) fn random_uuid_text() -> (r: String)
    ensures
        exists|u: uuid::Uuid| r@ == hyphenated_hex(uuid_bytes_of(u)),
        hyphenated_uuid_text(r@),
{
    let u = random_uuid();
    uuid_to_string(&u)
}

/// The 16 bytes of a UUID (`Uuid::as_bytes`), in big-endian order.
pub uninterp spec fn uuid_bytes_of(u: uuid::Uuid) -> Seq<u8>;

/// `Uuid::as_bytes`, copied out: the named `uuid_bytes_of`.
#[verifier::external_body]
fn uuid_bytes(id: &uuid::Uuid) -> (r: [u8; 16])
    ensures
        r@ == uuid_bytes_of(*id),
{
    *id.as_bytes()
}

/// Feature flags for the context-engineering rollout.
#[derive(Debug, Clone)]
pub struct ContextResolverFlags {
    /// Percentage of users that get the new scoring pipeline (0-100).
    pub scoring_rollout_pct: u8,
    /// Whether to dual-write to both old and new memory backends.
    pub memory_dual_write: bool,
    /// Whether to inject knowledge from the learning system into prompts.
    pub knowledge_injection: bool,
    /// Whether to enable the prompt inspection API.
    pub prompt_inspection: bool,
    /// Whether to enable conversation tracing.
    pub conversation_tracing: bool,
    /// Additional boolean flags.
    pub flags: HashMap<String, bool>,
}

impl Default for ContextResolverFlags {
    fn default() -> (r: Self)
        ensures
            r.scoring_rollout_pct == 0,
            !r.memory_dual_write,
            r.knowledge_injection,
            r.prompt_inspection,
            !r.conversation_tracing,
            r.flags@ == Map::<String, bool>::empty(),
    {
        ContextResolverFlags {
            scoring_rollout_pct: 0,
            memory_dual_write: false,
            knowledge_injection: true,
            prompt_inspection: true,
            conversation_tracing: false,
            flags: HashMap::new(),
        }
    }
}

/// The sticky hash of a user id's bytes: a base-31 fold that wraps around.
pub open spec fn id_hash(b: Seq<u8>) -> u64
    decreases b.len(),
{
    if b.len() == 0 {
        0
    } else {
        id_hash(b.drop_last()).wrapping_mul(31).wrapping_add(b.last() as u64)
    }
}

/// Whether the user with the given id bytes is in a rollout of `pct` percent.
pub open spec fn in_rollout(b: Seq<u8>, pct: u8) -> bool {
    if pct == 0 {
        false
    } else if pct >= 100 {
        true
    } else {
        id_hash(b) % 100 < pct
    }
}

/// The sticky hash of a user id's bytes.
pub fn user_id_hash(bytes: &[u8; 16]) -> (r: u64)
    ensures
        r == id_hash(bytes@),
{
    let mut acc: u64 = 0;
    let mut i: usize = 0;
    while i < 16
        invariant
            0 <= i <= 16,
            bytes@.len() == 16,
            acc == id_hash(bytes@.take(i as int)),
        decreases 16 - i,
    {
        proof {
            assert(bytes@.take(i + 1).drop_last() =~= bytes@.take(i as int));
        }
        acc = acc.wrapping_mul(31).wrapping_add(bytes[i] as u64);
        i = i + 1;
    }
    proof {
        assert(bytes@.take(16) =~= bytes@);
    }
    acc
}

impl ContextResolverFlags {
    /// Whether a user should use the new scoring pipeline: nobody at 0%,
    /// everybody from 100%, and otherwise the users whose id hash falls
    /// under the percentage, so that a user's assignment never changes.
    pub fn should_use_new_pipeline(&self, user_id: &uuid::Uuid) -> (r: bool)
        ensures
            self.scoring_rollout_pct == 0 ==> !r,
            self.scoring_rollout_pct >= 100 ==> r,
            r == in_rollout(uuid_bytes_of(*user_id), self.scoring_rollout_pct),
    {
        let bytes = uuid_bytes(user_id);
        self.should_use_new_pipeline_for(&bytes)
    }

    /// Whether the user with the given id bytes should use the new pipeline.
    pub fn should_use_new_pipeline_for(&self, bytes: &[u8; 16]) -> (r: bool)
        ensures
            r == in_rollout(bytes@, self.scoring_rollout_pct),
    {
        if self.scoring_rollout_pct == 0 {
            return false;
        }
        if self.scoring_rollout_pct >= 100 {
            return true;
        }
        let hash = user_id_hash(bytes);
        (hash % 100) < self.scoring_rollout_pct as u64
    }

    /// Whether a named flag is set (unknown flags are off).
    pub fn is_flag_enabled(&self, name: &str) -> (r: bool)
        ensures
            r == exists|s: String| s@ == name@ && #[trigger] self.flags@.contains_key(s)
                && self.flags@[s],
    {
        match string_map_get(&self.flags, name) {
            Some(b) => {
                proof {
                    let s = choose|s: String| s@ == name@ && #[trigger] self.flags@.contains_key(s);
                    assert(self.flags@.contains_key(s));
                }
                *b
            },
            None => false,
        }
    }
}

/// Raising the rollout percentage only adds users: whoever is in at `p` is
/// in at every `q` from `p` on.
pub proof fn lemma_rollout_monotone(b: Seq<u8>, p: u8, q: u8)
    requires
        p <= q,
        in_rollout(b, p),
    ensures
        in_rollout(b, q),
{
}

} // verus!
