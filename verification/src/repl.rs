//! The turns of the read-evaluate-print loop: what is printed after a read,
//! and whether the loop goes on.

use crate::editor::{
    outcome_of, Outcome, ReadResult, ReadResultView, SuspendableError, SuspendableErrorView,
    SuspendableResult,
};
use reedline::ReedlineError;
use vstd::prelude::*;
use vstd::string::StringExecFns;

verus! {

/// The command that ends the loop.
pub const EXIT_COMMAND: &'static str = "exit";

/// What precedes an accepted line when it is echoed.
pub const PROCESSED_LABEL: &'static str = "We processed: ";

/// The farewell that follows the exit command.
pub const EXIT_NOTICE: &'static str = "Exiting...";

/// The notice of a read that was aborted.
pub const ABORTED_NOTICE: &'static str = "\nAborted!";

/// What precedes the text of an error of the engine.
pub const REEDLINE_ERROR_LABEL: &'static str = "Reedline error: ";

/// What precedes the message of a failed suspension.
pub const SUSPEND_ERROR_LABEL: &'static str = "Suspend error: ";

/// Whether `c` is white space: one of the twenty-five code points with the
/// Unicode property `White_Space`.
pub open spec fn is_whitespace(c: char) -> bool {
    let code = c as u32;
    ||| 0x09 <= code <= 0x0D
    ||| code == 0x20
    ||| code == 0x85
    ||| code == 0xA0
    ||| code == 0x1680
    ||| 0x2000 <= code <= 0x200A
    ||| code == 0x2028
    ||| code == 0x2029
    ||| code == 0x202F
    ||| code == 0x205F
    ||| code == 0x3000
}

/// `text` without the white space it starts with.
pub open spec fn trim_start(text: Seq<char>) -> Seq<char>
    decreases text.len(),
{
    if text.len() > 0 && is_whitespace(text.first()) {
        trim_start(text.drop_first())
    } else {
        text
    }
}

/// `text` without the white space it ends with.
pub open spec fn trim_end(text: Seq<char>) -> Seq<char>
    decreases text.len(),
{
    if text.len() > 0 && is_whitespace(text.last()) {
        trim_end(text.drop_last())
    } else {
        text
    }
}

/// `text` without the white space around it.
pub open spec fn trimmed(text: Seq<char>) -> Seq<char> {
    trim_end(trim_start(text))
}

/// Whether `text` is the exit command, white space around it aside.
pub open spec fn is_exit(text: Seq<char>) -> bool {
    trimmed(text) == EXIT_COMMAND@
}

/// What the loop does after one read.
#[derive(Debug)]
pub struct Turn {
    /// The lines for standard output, in order; each is printed with a line
    /// end after it.
    pub output: Vec<String>,
    /// The line for standard error, if any.
    pub error: Option<String>,
    /// Whether the loop ends with this turn.
    pub stop: bool,
}

/// The mathematical value of a [`Turn`].
pub struct TurnView {
    pub output: Seq<Seq<char>>,
    pub error: Option<Seq<char>>,
    pub stop: bool,
}

impl View for Turn {
    type V = TurnView;

    open spec fn view(&self) -> TurnView {
        TurnView {
            output: self.output@.map_values(|line: String| line@),
            error: match self.error {
                Some(line) => Some(line@),
                None => None,
            },
            stop: self.stop,
        }
    }
}

/// The turn after a read that did not fail: an accepted line is echoed, and
/// ends the loop with a farewell if it is the exit command; an aborted read
/// ends the loop; a suspension passes in silence.
pub open spec fn turn_for_read(read: ReadResultView) -> TurnView {
    match read {
        ReadResultView::Success(text) => TurnView {
            output: if is_exit(text) {
                seq![PROCESSED_LABEL@ + text, EXIT_NOTICE@]
            } else {
                seq![PROCESSED_LABEL@ + text]
            },
            error: None,
            stop: is_exit(text),
        },
        ReadResultView::Aborted => TurnView {
            output: seq![ABORTED_NOTICE@],
            error: None,
            stop: true,
        },
        ReadResultView::Suspended => TurnView { output: seq![], error: None, stop: false },
    }
}

/// The turn after a read that failed: the error is reported under `label`
/// and the loop ends.
pub open spec fn turn_for_failure(label: Seq<char>, text: Seq<char>) -> TurnView {
    TurnView { output: seq![], error: Some(label + text), stop: true }
}

/// Calls `ToString::to_string` on an error of the engine. Nothing is claimed
/// of the text.
#[verifier::external_body]
fn engine_error_text(error: &ReedlineError) -> String {
    error.to_string()
}

/// Tells whether `c` is white space.
pub fn char_is_whitespace(c: char) -> (yes: bool)
    ensures
        yes == is_whitespace(c),
{
    let code: u32 = c as u32;
    (0x09 <= code && code <= 0x0D) || code == 0x20 || code == 0x85 || code == 0xA0 || code
        == 0x1680 || (0x2000 <= code && code <= 0x200A) || code == 0x2028 || code == 0x2029
        || code == 0x202F || code == 0x205F || code == 0x3000
}

/// The characters of `line`, in order.
pub fn chars_of(line: &str) -> (chars: Vec<char>)
    ensures
        chars@ == line@,
{
    let mut chars: Vec<char> = Vec::new();
    for c in it: line.chars()
        invariant
            it.seq() == line@,
            chars@ == it.seq().take(it.index() as int),
    {
        chars.push(c);
    }
    chars
}

/// Finds where `chars` starts and ends once the white space around it is
/// left out.
pub fn trimmed_range(chars: &Vec<char>) -> (range: (usize, usize))
    ensures
        range.0 <= range.1 <= chars.len(),
        chars@.subrange(range.0 as int, range.1 as int) == trimmed(chars@),
{
    let n: usize = chars.len();
    let mut start: usize = 0;
    assert(chars@.subrange(0, n as int) == chars@);
    while start < n && char_is_whitespace(chars[start])
        invariant
            n == chars.len(),
            start <= n,
            trim_start(chars@) == trim_start(chars@.subrange(start as int, n as int)),
        decreases n - start,
    {
        assert(chars@.subrange(start as int, n as int).drop_first() == chars@.subrange(
            start + 1,
            n as int,
        ));
        start += 1;
    }
    let mut end: usize = n;
    while end > start && char_is_whitespace(chars[end - 1])
        invariant
            n == chars.len(),
            start <= end <= n,
            trim_start(chars@) == chars@.subrange(start as int, n as int),
            trimmed(chars@) == trim_end(chars@.subrange(start as int, end as int)),
        decreases end - start,
    {
        assert(chars@.subrange(start as int, end as int).drop_last() == chars@.subrange(
            start as int,
            end - 1,
        ));
        end -= 1;
    }
    (start, end)
}

/// Tells whether `line` is the exit command, white space around it aside.
pub fn is_exit_command(line: &str) -> (yes: bool)
    ensures
        yes == is_exit(line@),
{
    let chars = chars_of(line);
    let (start, end) = trimmed_range(&chars);
    proof {
        reveal_strlit("exit");
    }
    let ghost word = chars@.subrange(start as int, end as int);
    assert(EXIT_COMMAND@ =~= seq!['e', 'x', 'i', 't']);
    if end - start == 4 {
        let yes = chars[start] == 'e' && chars[start + 1] == 'x' && chars[start + 2] == 'i'
            && chars[start + 3] == 't';
        assert(word[0] == chars[start as int] && word[1] == chars[start + 1] && word[2]
            == chars[start + 2] && word[3] == chars[start + 3]);
        assert(yes ==> word =~= EXIT_COMMAND@);
        yes
    } else {
        assert(word.len() != EXIT_COMMAND@.len());
        false
    }
}

/// The turn after a read that did not fail.
pub fn turn_after_read(read: ReadResult) -> (turn: Turn)
    ensures
        turn@ == turn_for_read(read@),
{
    match read {
        ReadResult::Success(buffer) => {
            let stop = is_exit_command(buffer.as_str());
            let mut output: Vec<String> = Vec::new();
            output.push(String::from_str(PROCESSED_LABEL).concat(buffer.as_str()));
            if stop {
                output.push(String::from_str(EXIT_NOTICE));
            }
            let turn = Turn { output, error: None, stop };
            assert(turn@.output =~= turn_for_read(read@).output);
            turn
        },
        ReadResult::Aborted => {
            let mut output: Vec<String> = Vec::new();
            output.push(String::from_str(ABORTED_NOTICE));
            let turn = Turn { output, error: None, stop: true };
            assert(turn@.output =~= turn_for_read(read@).output);
            turn
        },
        ReadResult::Suspended => {
            let turn = Turn { output: Vec::new(), error: None, stop: false };
            assert(turn@.output =~= turn_for_read(read@).output);
            turn
        },
    }
}

/// The turn after a read that failed with an error whose text is `text`.
pub fn turn_after_failure(label: &str, text: &str) -> (turn: Turn)
    ensures
        turn@ == turn_for_failure(label@, text@),
{
    let turn = Turn {
        output: Vec::new(),
        error: Some(String::from_str(label).concat(text)),
        stop: true,
    };
    assert(turn@.output =~= turn_for_failure(label@, text@).output);
    turn
}

/// The turn after a read. An error of the engine is reported with the text
/// that the engine gives for it.
pub fn respond(result: SuspendableResult<ReadResult>) -> (turn: Turn)
    ensures
        match outcome_of(result) {
            Ok(read) => turn@ == turn_for_read(read),
            Err(SuspendableErrorView::Reedline(_)) => exists|text: Seq<char>|
                turn@ == #[trigger] turn_for_failure(REEDLINE_ERROR_LABEL@, text),
            Err(SuspendableErrorView::Suspend(message)) => turn@ == turn_for_failure(
                SUSPEND_ERROR_LABEL@,
                message,
            ),
        },
{
    match result {
        Ok(read) => turn_after_read(read),
        Err(SuspendableError::Reedline(error)) => {
            let text = engine_error_text(&error);
            turn_after_failure(REEDLINE_ERROR_LABEL, text.as_str())
        },
        Err(SuspendableError::Suspend(message)) => turn_after_failure(
            SUSPEND_ERROR_LABEL,
            message.as_str(),
        ),
    }
}

} // verus!
