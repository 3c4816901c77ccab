use vstd::prelude::*;
use vstd::string::StringExecFns;

verus! {

/// Default message of `ResultExt::unwrap_or_log` on an `Err`.
pub const RESULT_UNWRAP_MSG: &'static str = "called `Result::unwrap_or_log()` on an `Err` value";

/// Default message of `ResultExt::unwrap_err_or_log` on an `Ok`.
pub const RESULT_UNWRAP_ERR_MSG: &'static str = "called `Result::unwrap_err_or_log()` on an `Ok` value";

/// Default message of `OptionExt::unwrap_or_log` on a `None`.
pub const OPTION_UNWRAP_MSG: &'static str = "called `Option::unwrap_or_log()` on a `None` value";

/// Default message of `OptionExt::unwrap_none_or_log` on a `Some`.
pub const OPTION_UNWRAP_NONE_MSG: &'static str = "called `Option::unwrap_none_or_log()` on a `Some` value";

/// The text of a critical record: the message alone, or the message, a colon,
/// a space and the debug text of the offending value.
pub open spec fn record_text(message: Seq<char>, value: Option<Seq<char>>) -> Seq<char> {
    match value {
        None => message,
        Some(v) => message + seq![':', ' '] + v,
    }
}

/// The diagnostic of a misused unwrap: the message that names the misuse and,
/// where the container held a value that was not wanted, its debug text.
#[derive(Debug, PartialEq, Eq)]
pub struct Failure {
    pub message: String,
    pub value: Option<String>,
}

impl Failure {
    /// The value's debug text as a sequence of characters, if there is one.
    pub open spec fn value_view(&self) -> Option<Seq<char>> {
        match self.value {
            None => None,
            Some(v) => Some(v@),
        }
    }

    /// What the critical record of this failure says.
    pub open spec fn record_view(&self) -> Seq<char> {
        record_text(self.message@, self.value_view())
    }

    /// The text of the single critical record that reports this failure.
    pub fn record(&self) -> (r: String)
        ensures
            r@ == self.record_view(),
    {
        match &self.value {
            None => self.message.clone(),
            Some(v) => {
                let mut text = self.message.clone();
                text.append(": ");
                text.append(v.as_str());
                proof {
                    reveal_strlit(": ");
                }
                text
            },
        }
    }

    /// The message that the termination carries: the full record, or none at
    /// all when termination is quiet, so that a sink that shows both the log and
    /// the termination does not print the text twice. The record itself is never
    /// shortened.
    pub fn panic_message(&self, quiet: bool) -> (r: Option<String>)
        ensures
            quiet ==> r is None,
            !quiet ==> r is Some && r->Some_0@ == self.record_view(),
    {
        if quiet {
            None
        } else {
            Some(self.record())
        }
    }
}

/// A critical record carries its message verbatim at its start. Without a
/// value the record is the message and nothing more; with one, the message is
/// followed by a colon and a space, and the value's debug text ends the record.
pub proof fn lemma_record_holds_message_and_value(message: Seq<char>, value: Option<Seq<char>>)
    ensures
        record_text(message, value).len() >= message.len(),
        record_text(message, value).subrange(0, message.len() as int) == message,
        value is None ==> record_text(message, value) == message,
        value is Some ==> ({
            let r = record_text(message, value);
            let v = value->Some_0;
            &&& r.len() == message.len() + 2 + v.len()
            &&& r[message.len() as int] == ':'
            &&& r[message.len() + 1int] == ' '
            &&& r.subrange(message.len() + 2int, r.len() as int) == v
        }),
{
    let r = record_text(message, value);
    assert(r.subrange(0, message.len() as int) =~= message);
    if let Some(v) = value {
        assert(r.subrange(message.len() + 2int, r.len() as int) =~= v);
    }
}

/// The failure whose record is `msg` alone.
pub fn failed(msg: &str) -> (r: Failure)
    ensures
        r.message@ == msg@,
        r.value is None,
        r.record_view() == msg@,
{
    Failure { message: String::from_str(msg), value: None }
}

/// The failure whose record is `msg` followed by the debug text of `value`.
pub fn failed_with<V: std::fmt::Debug + ?Sized>(msg: &str, value: &V) -> (r: Failure)
    ensures
        r.message@ == msg@,
        r.value is Some,
        r.record_view() == msg@ + seq![':', ' '] + r.value_view()->Some_0,
{
    Failure { message: String::from_str(msg), value: Some(debug_text(value)) }
}

/// Relies on `format!("{:?}", ..)`, that is on the value's own `core::fmt::Debug`
/// impl, for the debug text of a value. Nothing is stated of the text: it is
/// whatever that impl writes.
#[verifier::external_body]
fn debug_text<V: std::fmt::Debug + ?Sized>(value: &V) -> String {
    format!("{:?}", value)
}

} // verus!
