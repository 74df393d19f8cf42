use vstd::prelude::*;

verus! {

/// An append-only, ordered record of human-readable status lines.
pub struct OperationLog {
    lines: Vec<String>,
}

impl View for OperationLog {
    type V = Seq<Seq<char>>;

    closed spec fn view(&self) -> Seq<Seq<char>> {
        self.lines@.map_values(|s: String| s@)
    }
}

impl OperationLog {
    pub fn new() -> (r: OperationLog)
        ensures
            r@ == Seq::<Seq<char>>::empty(),
    {
        let r = OperationLog { lines: Vec::new() };
        assert(r@ =~= Seq::<Seq<char>>::empty());
        r
    }

    /// Adds `line` after every line already recorded.
    pub fn append(&mut self, line: String)
        ensures
            final(self)@ == old(self)@.push(line@),
    {
        let ghost v = line@;
        self.lines.push(line);
        assert(self@ =~= old(self)@.push(v));
    }

    pub fn len(&self) -> (r: usize)
        ensures
            r == self@.len(),
    {
        self.lines.len()
    }

    /// The recorded lines, oldest first, as a view the caller cannot mutate.
    pub fn snapshot(&self) -> (r: &[String])
        ensures
            r@.len() == self@.len(),
            forall|i: int| 0 <= i < r@.len() ==> #[trigger] r@[i]@ == self@[i],
    {
        self.lines.as_slice()
    }
}

} // verus!
