use vstd::prelude::*;

verus! {

/// The kind of a cargo target, as far as the reports tell kinds apart.
#[derive(Debug, Clone, Copy, PartialEq, Eq, Structural)]
pub enum TargetKind {
    Bin,
    Bench,
    Example,
    Test,
    Lib,
    Other,
}

/// A record of cargo's progress output, as far as an instrumented build reads it.
#[derive(Debug)]
pub enum BuildEvent {
    /// A target was compiled; `executable` is set when it produced one.
    ArtifactProduced { executable: Option<String>, target_name: String, target_kinds: Vec<TargetKind> },
    /// The build ended.
    BuildFinished { success: bool },
    /// Any other record, handed on unread.
    Other,
}

/// The word used for one target kind, for the kinds that have one.
pub open spec fn kind_word(k: TargetKind) -> Option<Seq<char>> {
    match k {
        TargetKind::Bin => Some("binary"@),
        TargetKind::Bench => Some("benchmark"@),
        TargetKind::Example => Some("example"@),
        _ => None,
    }
}

/// The word for an artifact: that of the first of its kinds that has one,
/// else "artifact".
pub open spec fn artifact_kind_spec(kinds: Seq<TargetKind>) -> Seq<char>
    decreases kinds.len(),
{
    if kinds.len() == 0 {
        "artifact"@
    } else {
        match kind_word(kinds[0]) {
            Some(w) => w,
            None => artifact_kind_spec(kinds.drop_first()),
        }
    }
}

/// Names the kind of an artifact from the kinds of its target.
pub fn artifact_kind(kinds: &Vec<TargetKind>) -> (r: &'static str)
    ensures
        r@ == artifact_kind_spec(kinds@),
{
    let mut i: usize = 0;
    assert(kinds@.skip(0) =~= kinds@);
    while i < kinds.len()
        invariant
            i <= kinds@.len(),
            artifact_kind_spec(kinds@.skip(i as int)) == artifact_kind_spec(kinds@),
        decreases kinds@.len() - i,
    {
        assert(kinds@.skip(i as int).drop_first() =~= kinds@.skip(i + 1));
        match kinds[i] {
            TargetKind::Bin => return "binary",
            TargetKind::Bench => return "benchmark",
            TargetKind::Example => return "example",
            _ => {},
        }
        i = i + 1;
    }
    assert(kinds@.skip(i as int) =~= Seq::<TargetKind>::empty());
    "artifact"
}

} // verus!
