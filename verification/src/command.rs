//! Command lines of the outside programs that the fix runs.
use vstd::prelude::*;

verus! {

/// A program and its arguments, as handed to the system to run.
pub struct CommandLine {
    pub program: String,
    pub args: Vec<String>,
}

impl View for CommandLine {
    /// The program's name, and the arguments in order.
    type V = (Seq<char>, Seq<Seq<char>>);

    open spec fn view(&self) -> (Seq<char>, Seq<Seq<char>>) {
        (self.program@, self.args.deep_view())
    }
}

impl CommandLine {
    /// A copy of this command line.
    pub fn copy(&self) -> (res: CommandLine)
        ensures
            res@ == self@,
    {
        let n = self.args.len();
        let mut args: Vec<String> = Vec::new();
        let mut i: usize = 0;
        while i < n
            invariant
                n == self.args@.len(),
                i <= n,
                args@.len() == i,
                forall|j: int| 0 <= j < i ==> args@[j] == self.args@[j],
            decreases n - i,
        {
            args.push(self.args[i].clone());
            i = i + 1;
        }
        let res = CommandLine { program: self.program.clone(), args };
        assert(res@.1 =~= self@.1);
        res
    }
}

} // verus!
