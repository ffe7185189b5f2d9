use vstd::prelude::*;

verus! {

/// A named operation that a file of a project may support.
#[derive(Clone, Copy, Debug, PartialEq, Eq, Structural)]
pub enum Capability {
    Format,
    Lint,
    Search,
    Assist,
}

/// What the project reports for one capability of one file.
#[derive(Clone, Copy, Debug, PartialEq, Eq, Structural)]
pub enum Support {
    Supported,
    Ignored,
    Protected,
    FeatureNotEnabled,
    FileNotSupported,
}

impl Support {
    pub fn is_supported(&self) -> (r: bool)
        ensures
            r == (*self is Supported),
    {
        match self {
            Support::Supported => true,
            _ => false,
        }
    }
}

/// The verdicts that a project reported for the capabilities asked about.
#[derive(Debug)]
pub struct FeatureSupport {
    pub verdicts: Vec<(Capability, Support)>,
}

/// The verdict given first for `c` in `v`, if any.
pub open spec fn support_in(v: Seq<(Capability, Support)>, c: Capability) -> Option<Support>
    decreases v.len(),
{
    if v.len() == 0 {
        None
    } else {
        match support_in(v.drop_last(), c) {
            Some(s) => Some(s),
            None => if v.last().0 == c {
                Some(v.last().1)
            } else {
                None
            },
        }
    }
}

/// Whether the capability check clears a file for formatting.
pub open spec fn format_supported(f: FeatureSupport) -> bool {
    support_in(f.verdicts@, Capability::Format) == Some(Support::Supported)
}

impl FeatureSupport {
    /// The verdict reported for capability `c`, or `None` when it was not reported.
    pub fn support_kind_for(&self, c: Capability) -> (r: Option<Support>)
        ensures
            r == support_in(self.verdicts@, c),
    {
        let n = self.verdicts.len();
        let mut i: usize = 0;
        while i < n
            invariant
                n == self.verdicts@.len(),
                i <= n,
                support_in(self.verdicts@.subrange(0, i as int), c) is None,
            decreases n - i,
        {
            assert(self.verdicts@.subrange(0, i as int + 1).drop_last()
                =~= self.verdicts@.subrange(0, i as int));
            let (k, s) = self.verdicts[i];
            if k == c {
                assert(self.verdicts@.subrange(0, i as int + 1).last() == self.verdicts@[i as int]);
                proof { lemma_support_in_prefix(self.verdicts@, c, i as int + 1); }
                return Some(s);
            }
            i = i + 1;
        }
        assert(self.verdicts@.subrange(0, n as int) =~= self.verdicts@);
        None
    }

    /// Whether formatting is supported: the verdict for `Format` was reported and is `Supported`.
    pub fn allows_format(&self) -> (r: bool)
        ensures
            r == format_supported(*self),
    {
        match self.support_kind_for(Capability::Format) {
            Some(s) => s.is_supported(),
            None => false,
        }
    }
}

/// Once a prefix of `v` reports `c`, the whole of `v` gives the same verdict.
proof fn lemma_support_in_prefix(v: Seq<(Capability, Support)>, c: Capability, k: int)
    requires
        0 <= k <= v.len(),
        support_in(v.subrange(0, k), c) is Some,
    ensures
        support_in(v, c) == support_in(v.subrange(0, k), c),
    decreases v.len() - k,
{
    if k < v.len() {
        assert(v.subrange(0, k + 1).drop_last() =~= v.subrange(0, k));
        lemma_support_in_prefix(v, c, k + 1);
    } else {
        assert(v.subrange(0, k) =~= v);
    }
}

} // verus!
