use vstd::prelude::*;
use vstd::string::StringExecFns;
use crate::decimal::{
    is_signed_numeral, lemma_signed_numeral_reads_back, push_signed, signed_decimal, signed_value,
};

verus! {

/// The state of `errno` after a failed call: its code and the system's message for it.
pub struct Errno {
    pub code: i32,
    info: String,
}

/// How an `Errno` is shown: `Errno code: <code>, strerror: <message>`.
pub open spec fn errno_text(code: int, info: Seq<char>) -> Seq<char> {
    "Errno code: "@ + signed_decimal(code) + ", strerror: "@ + info
}

/// The text of an error is its fixed labels with the code, as a numeral that reads back to
/// the code in full, and the message unchanged.
pub proof fn lemma_errno_text_reads_back(code: i32, info: Seq<char>)
    ensures
        exists|c: Seq<char>|
            #![trigger is_signed_numeral(c)]
            {
                &&& is_signed_numeral(c) && signed_value(c) == code
                &&& errno_text(code as int, info) == "Errno code: "@ + c + ", strerror: "@ + info
            },
{
    lemma_signed_numeral_reads_back(code as int);
    assert(is_signed_numeral(signed_decimal(code as int)));
}

impl Errno {
    /// The code of `errno`.
    pub closed spec fn error_code(&self) -> i32 {
        self.code
    }

    /// The message that `strerror` gave for the code.
    pub closed spec fn message(&self) -> Seq<char> {
        self.info@
    }

    /// An `Errno` of the given code and message.
    pub fn new(code: i32, info: String) -> (errno: Self)
        ensures
            errno.error_code() == code,
            errno.message() == info@,
    {
        Errno { code, info }
    }

    /// The message that `strerror` gave for the code.
    pub fn info(&self) -> (info: &String)
        ensures
            info@ == self.message(),
    {
        &self.info
    }

    /// The text by which the programs report the error.
    pub fn describe(&self) -> (text: String)
        ensures
            text@ == errno_text(self.error_code() as int, self.message()),
    {
        let mut text = String::from_str("Errno code: ");
        push_signed(&mut text, self.code as i64);
        text.append(", strerror: ");
        text.append(self.info.as_str());
        text
    }
}

} // verus!
