use vstd::prelude::*;

verus! {

/// The number of spaces that one level of indentation adds to a trace line.
pub const INDENT_WIDTH: usize = 3;

/// Indentation state of a trace: how many scopes are open.
pub struct LocalLog {
    pub indent: usize,
}

impl Default for LocalLog {
    fn default() -> (r: Self)
        ensures
            r.indent == 0,
    {
        LocalLog { indent: 0 }
    }
}

/// `n` spaces.
pub open spec fn spaces(n: nat) -> Seq<char> {
    Seq::new(n, |i: int| ' ')
}

impl LocalLog {
    /// Opens a scope: later lines are indented one level deeper.
    pub fn start_scope(&mut self)
        requires
            old(self).indent < usize::MAX,
        ensures
            final(self).indent == old(self).indent + 1,
    {
        self.indent += 1;
    }

    /// Closes the innermost open scope.
    pub fn close_scope(&mut self)
        requires
            old(self).indent > 0,
        ensures
            final(self).indent == old(self).indent - 1,
    {
        self.indent -= 1;
    }

    /// The trace line for `message`: three spaces per open scope, then the message.
    pub fn line(&self, message: &str) -> (r: String)
        ensures
            r@ == spaces((INDENT_WIDTH * self.indent) as nat) + message@,
    {
        let mut out = String::new();
        let mut i: usize = 0;
        while i < self.indent
            invariant
                0 <= i <= self.indent,
                out@ == spaces((INDENT_WIDTH * i) as nat),
            decreases self.indent - i,
        {
            out.append("   ");
            proof {
                reveal_strlit("   ");
                assert(out@ =~= spaces((INDENT_WIDTH * (i + 1)) as nat));
            }
            i = i + 1;
        }
        out.append(message);
        out
    }
}

} // verus!
