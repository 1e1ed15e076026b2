//! Hashing strategies, the capabilities they depend on, and the rule that
//! picks the first usable strategy from a preference list.

use vstd::prelude::*;

verus! {

/// A hashing strategy that a key can be routed through.
#[derive(Debug, Clone, Copy, PartialEq, Eq, Structural)]
pub enum ShardAlgorithm {
    /// Wide SIMD lane sum; needs 512-bit vector support.
    Avx512,
    /// Mid-width SIMD lane sum; needs 256-bit vector support.
    Avx2,
    /// Hash built on the hardware cipher round; needs the cipher instructions.
    AesNi,
    /// FNV-1a, 64 bit. Always usable.
    Fnv1a,
    /// XXH3, 64 bit. Always usable, and the fallback of last resort.
    Xxh3,
}

/// Which hardware-gated strategies the executing platform supports.
#[derive(Debug, Clone, Copy, PartialEq, Eq, Structural)]
pub struct Capabilities {
    pub avx512: bool,
    pub avx2: bool,
    pub aesni: bool,
}

impl Capabilities {
    /// A platform without any of the hardware-gated strategies.
    pub open spec fn spec_none() -> Capabilities {
        Capabilities { avx512: false, avx2: false, aesni: false }
    }

    /// A platform without any of the hardware-gated strategies.
    pub fn none() -> (caps: Capabilities)
        ensures
            caps == Capabilities::spec_none(),
    {
        Capabilities { avx512: false, avx2: false, aesni: false }
    }
}

impl ShardAlgorithm {
    /// True when the strategy needs a positive capability probe.
    pub open spec fn hardware_gated(self) -> bool {
        self is Avx512 || self is Avx2 || self is AesNi
    }

    /// Whether the strategy can be used on a platform with capabilities `caps`.
    pub open spec fn available(self, caps: Capabilities) -> bool {
        match self {
            ShardAlgorithm::Avx512 => caps.avx512,
            ShardAlgorithm::Avx2 => caps.avx2,
            ShardAlgorithm::AesNi => caps.aesni,
            ShardAlgorithm::Fnv1a => true,
            ShardAlgorithm::Xxh3 => true,
        }
    }

    /// Whether the strategy can be used on a platform with capabilities `caps`.
    pub fn is_available(&self, caps: &Capabilities) -> (usable: bool)
        ensures
            usable == self.available(*caps),
    {
        match self {
            ShardAlgorithm::Avx512 => caps.avx512,
            ShardAlgorithm::Avx2 => caps.avx2,
            ShardAlgorithm::AesNi => caps.aesni,
            ShardAlgorithm::Fnv1a => true,
            ShardAlgorithm::Xxh3 => true,
        }
    }
}

/// The strategy chosen from `preferences` on a platform with `caps`: the
/// first entry that is available, or XXH3 when no entry is.
pub open spec fn select(preferences: Seq<ShardAlgorithm>, caps: Capabilities) -> ShardAlgorithm
    decreases preferences.len(),
{
    if preferences.len() == 0 {
        ShardAlgorithm::Xxh3
    } else if preferences[0].available(caps) {
        preferences[0]
    } else {
        select(preferences.drop_first(), caps)
    }
}

/// When entry `i` is available and no earlier entry is, selection yields
/// entry `i`: preference order decides, nothing else.
pub proof fn lemma_select_first_available(
    preferences: Seq<ShardAlgorithm>,
    caps: Capabilities,
    i: int,
)
    requires
        0 <= i < preferences.len(),
        preferences[i].available(caps),
        forall|j: int| 0 <= j < i ==> !(#[trigger] preferences[j]).available(caps),
    ensures
        select(preferences, caps) == preferences[i],
    decreases i,
{
    if i > 0 {
        let rest = preferences.drop_first();
        assert(rest[i - 1] == preferences[i]);
        assert forall|j: int| 0 <= j < i - 1 implies !(#[trigger] rest[j]).available(caps) by {
            assert(rest[j] == preferences[j + 1]);
        }
        lemma_select_first_available(rest, caps, i - 1);
    }
}

/// When no entry is available, selection yields XXH3.
pub proof fn lemma_select_fallback(preferences: Seq<ShardAlgorithm>, caps: Capabilities)
    requires
        forall|i: int| 0 <= i < preferences.len() ==> !(#[trigger] preferences[i]).available(caps),
    ensures
        select(preferences, caps) == ShardAlgorithm::Xxh3,
    decreases preferences.len(),
{
    if preferences.len() > 0 {
        let rest = preferences.drop_first();
        assert forall|i: int| 0 <= i < rest.len() implies !(#[trigger] rest[i]).available(caps) by {
            assert(rest[i] == preferences[i + 1]);
        }
        lemma_select_fallback(rest, caps);
    }
}

/// Whatever the list and the platform, the selected strategy is available,
/// and it is an entry of the list unless it is the XXH3 fallback.
pub proof fn lemma_select_available(preferences: Seq<ShardAlgorithm>, caps: Capabilities)
    ensures
        select(preferences, caps).available(caps),
        preferences.contains(select(preferences, caps)) || select(preferences, caps)
            == ShardAlgorithm::Xxh3,
    decreases preferences.len(),
{
    if preferences.len() > 0 && !preferences[0].available(caps) {
        let rest = preferences.drop_first();
        lemma_select_available(rest, caps);
        if rest.contains(select(rest, caps)) {
            let k = choose|k: int| 0 <= k < rest.len() && rest[k] == select(rest, caps);
            assert(preferences[k + 1] == select(rest, caps));
        }
    } else if preferences.len() > 0 {
        assert(preferences[0] == select(preferences, caps));
    }
}

/// Picks the first entry of `preferences` that is available under `caps`,
/// falling back to XXH3 when the list holds no available entry.
pub fn select_algorithm(preferences: &[ShardAlgorithm], caps: &Capabilities) -> (chosen:
    ShardAlgorithm)
    ensures
        chosen == select(preferences@, *caps),
{
    let mut i: usize = 0;
    assert(preferences@.skip(0) =~= preferences@);
    while i < preferences.len()
        invariant
            i <= preferences.len(),
            select(preferences@, *caps) == select(preferences@.skip(i as int), *caps),
        decreases preferences.len() - i,
    {
        let candidate: ShardAlgorithm = preferences[i];
        proof {
            let rest = preferences@.skip(i as int);
            assert(rest[0] == preferences@[i as int]);
            assert(rest.drop_first() =~= preferences@.skip(i as int + 1));
        }
        if candidate.is_available(caps) {
            return candidate;
        }
        i = i + 1;
    }
    ShardAlgorithm::Xxh3
}

} // verus!
