//! The EHLO reply of the first command model, built as reply text.
use vstd::prelude::*;
use vstd::string::*;
use crate::commands::command::Command;
use crate::io::transaction::strings_view;

verus! {

/// An EHLO answer: a greeting and the extension lines that follow it.
pub struct Ehlo {
    pub greeting: String,
    pub lines: Vec<String>,
}

/// The text of the intermediate reply lines `250-<line>` with their CRLFs, in order.
pub open spec fn continuation_lines(lines: Seq<Seq<char>>) -> Seq<char>
    decreases lines.len(),
{
    if lines.len() == 0 {
        Seq::empty()
    } else {
        continuation_lines(lines.drop_last()) + "250-"@ + lines.last() + "\r\n"@
    }
}

/// The EHLO reply text: `250 <greeting>` alone when there are no extension lines;
/// otherwise `250-<greeting>`, a `250-` line for each extension but the last, and
/// `250 <last>`, the lines separated by CRLF and the last without one.
pub open spec fn ehlo_text(greeting: Seq<char>, lines: Seq<Seq<char>>) -> Seq<char> {
    if lines.len() == 0 {
        "250 "@ + greeting
    } else {
        "250-"@ + greeting + "\r\n"@ + continuation_lines(lines.drop_last()) + "250 "@
            + lines.last()
    }
}

impl Command for Ehlo {
    fn execute(&mut self) -> (r: Result<String, String>)
        ensures
            *final(self) == *old(self),
            r matches Ok(text) && text@ == ehlo_text(old(self).greeting@, strings_view(old(self).lines@)),
    {
        let ghost lines = strings_view(self.lines@);
        let n = self.lines.len();
        if n == 0 {
            let mut response = String::from_str("250 ");
            response.append(self.greeting.as_str());
            return Ok(response);
        }
        let mut response = String::from_str("250-");
        response.append(self.greeting.as_str());
        response.append("\r\n");
        let mut i: usize = 0;
        while i < n - 1
            invariant
                n == self.lines.len(),
                n > 0,
                i <= n - 1,
                lines == strings_view(self.lines@),
                response@ == "250-"@ + self.greeting@ + "\r\n"@ + continuation_lines(lines.take(i as int)),
            decreases n - 1 - i,
        {
            assert(lines.take(i + 1).drop_last() =~= lines.take(i as int));
            response.append("250-");
            response.append(self.lines[i].as_str());
            response.append("\r\n");
            i = i + 1;
        }
        assert(lines.take(i as int) =~= lines.drop_last());
        response.append("250 ");
        response.append(self.lines[n - 1].as_str());
        Ok(response)
    }
}

} // verus!
