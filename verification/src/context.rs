use vstd::prelude::*;

verus! {

/// The information a keyword compiler needs beyond its own schema fragment:
/// the position within the overall schema document, for diagnostics. A child
/// context is derived, never mutated in place, so sibling compilations never
/// observe each other's state.
pub struct CompilationContext {
    pub path: Vec<String>,
}

impl CompilationContext {
    pub fn new() -> (r: Self)
        ensures
            r.path@.len() == 0,
    {
        CompilationContext { path: Vec::new() }
    }

    /// Derives the context for compiling a nested schema under `segment`.
    pub fn in_child(&self, segment: &str) -> (r: Self)
        ensures
            r.path@.len() == self.path@.len() + 1,
            forall|i: int| 0 <= i < self.path@.len() ==> r.path@[i]@ == self.path@[i]@,
            r.path@[self.path@.len() as int]@ == segment@,
    {
        let mut path: Vec<String> = Vec::new();
        let mut i: usize = 0;
        while i < self.path.len()
            invariant
                i <= self.path@.len(),
                path@.len() == i,
                forall|t: int| 0 <= t < i ==> path@[t]@ == self.path@[t]@,
            decreases self.path@.len() - i,
        {
            path.push(self.path[i].clone());
            i += 1;
        }
        path.push(segment.to_owned());
        CompilationContext { path }
    }
}

} // verus!
