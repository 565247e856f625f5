//! The job status and its wire text in the shared store.
use vstd::prelude::*;
use vstd::string::*;

verus! {

/// Where a job stands.
#[derive(Debug, Clone, PartialEq, Eq)]
pub enum JobStatus {
    /// Acknowledged, not finished yet.
    Accepted,
    /// Finished successfully.
    Done,
    /// Finished with a classified failure.
    Error { code: String, message: String },
}

/// The mathematical value of a `JobStatus`.
pub enum StatusView {
    Accepted,
    Done,
    Error { code: Seq<char>, message: Seq<char> },
}

impl View for JobStatus {
    type V = StatusView;

    open spec fn view(&self) -> StatusView {
        match self {
            JobStatus::Accepted => StatusView::Accepted,
            JobStatus::Done => StatusView::Done,
            JobStatus::Error { code, message } => StatusView::Error { code: code@, message: message@ },
        }
    }
}

impl StatusView {
    /// `Done` and `Error` are final: once stored they never change.
    pub open spec fn is_terminal(self) -> bool {
        !(self is Accepted)
    }

    /// A status whose wire text reads back as itself: the code holds no ':'.
    pub open spec fn is_valid(self) -> bool {
        match self {
            StatusView::Error { code, message } => !code.contains(':'),
            _ => true,
        }
    }
}

/// The wire text of a status.
pub open spec fn encode_view(s: StatusView) -> Seq<char> {
    match s {
        StatusView::Accepted => "Accepted"@,
        StatusView::Done => "Done"@,
        StatusView::Error { code, message } => "Error("@ + code + ": "@ + message + ")"@,
    }
}

/// `i` is the position of the first ':' in `s`.
pub open spec fn is_first_colon(s: Seq<char>, i: int) -> bool {
    0 <= i < s.len() && s[i] == ':' && forall|j: int| 0 <= j < i ==> s[j] != ':'
}

/// What stands between `Error(` and the closing `)`.
pub open spec fn error_inner(s: Seq<char>) -> Seq<char> {
    s.subrange(6, s.len() - 1)
}

/// `s` reads `Error(<code>: <message>)`, the code ending at the first ':'.
pub open spec fn is_error_text(s: Seq<char>) -> bool {
    &&& s.len() >= 7
    &&& s.subrange(0, 6) == "Error("@
    &&& s[s.len() - 1] == ')'
    &&& exists|i: int|
        is_first_colon(error_inner(s), i) && i + 1 < error_inner(s).len() && error_inner(s)[i + 1]
            == ' '
}

pub open spec fn error_colon(s: Seq<char>) -> int {
    choose|i: int| is_first_colon(error_inner(s), i)
}

/// The status that a wire text stands for, if any.
pub open spec fn decode_view(s: Seq<char>) -> Option<StatusView> {
    if s == "Accepted"@ {
        Some(StatusView::Accepted)
    } else if s == "Done"@ {
        Some(StatusView::Done)
    } else if is_error_text(s) {
        Some(
            StatusView::Error {
                code: error_inner(s).subrange(0, error_colon(s)),
                message: error_inner(s).subrange(error_colon(s) + 2, error_inner(s).len() as int),
            },
        )
    } else {
        None
    }
}

/// The message of a failed decode of `s`.
pub open spec fn unknown_message(s: Seq<char>) -> Seq<char> {
    "Status unknown: "@ + s
}

/// Reading back the wire text of a valid status gives that same status.
pub proof fn lemma_round_trip(s: StatusView)
    requires
        s.is_valid(),
    ensures
        decode_view(encode_view(s)) == Some(s),
{
    reveal_strlit("Accepted");
    reveal_strlit("Done");
    reveal_strlit("Error(");
    reveal_strlit(": ");
    reveal_strlit(")");
    if let StatusView::Error { code, message } = s {
        let t = encode_view(s);
        let c = code.len() as int;
        assert(t.len() == 9 + c + message.len());
        assert(t.len() != "Accepted"@.len());
        assert(t.len() != "Done"@.len());
        assert(t.subrange(0, 6) =~= "Error("@);
        assert(t[t.len() - 1] == ')');
        let inner = error_inner(t);
        assert(inner =~= code + ": "@ + message);
        assert(is_first_colon(inner, c)) by {
            assert forall|j: int| 0 <= j < c implies inner[j] != ':' by {
                assert(inner[j] == code[j]);
            }
        }
        assert(is_error_text(t));
        assert(error_colon(t) == c) by {
            let k = error_colon(t);
            if k < c {
                assert(inner[k] != ':');
            }
            if c < k {
                assert(inner[c] != ':');
            }
        }
        assert(inner.subrange(0, c) =~= code);
        assert(inner.subrange(c + 2, inner.len() as int) =~= message);
        assert(t != "Accepted"@);
        assert(t != "Done"@);
        assert(decode_view(t) == Some(s));
    } else if s is Done {
        assert("Done"@.len() != "Accepted"@.len());
    }
}

/// A text that reads as a status is exactly that status's wire text, and the
/// status is valid.
pub proof fn lemma_decode_encode(t: Seq<char>)
    requires
        decode_view(t) is Some,
    ensures
        encode_view(decode_view(t)->0) == t,
        decode_view(t)->0.is_valid(),
{
    if t != "Accepted"@ && t != "Done"@ {
        reveal_strlit("Error(");
        reveal_strlit(": ");
        reveal_strlit(")");
        let inner = error_inner(t);
        let k = error_colon(t);
        let code = inner.subrange(0, k);
        let message = inner.subrange(k + 2, inner.len() as int);
        assert(inner =~= code + ": "@ + message);
        assert(t =~= "Error("@ + inner + ")"@);
        assert(!code.contains(':'));
    }
}

/// A wire text that is none of the three forms.
#[derive(Debug, Clone, PartialEq, Eq)]
pub struct DecodeError {
    /// `Status unknown: <text>`.
    pub message: String,
}

/// Whether two texts hold the same characters.
pub(crate) fn same_text(a: &str, b: &str) -> (r: bool)
    ensures
        r == (a@ == b@),
{
    let n = a.unicode_len();
    if n != b.unicode_len() {
        return false;
    }
    let mut i: usize = 0;
    while i < n
        invariant
            n == a@.len(),
            n == b@.len(),
            i <= n,
            forall|j: int| 0 <= j < i ==> a@[j] == b@[j],
        decreases n - i,
    {
        if a.get_char(i) != b.get_char(i) {
            return false;
        }
        i = i + 1;
    }
    proof {
        assert(a@ =~= b@);
    }
    true
}

impl JobStatus {
    /// The wire text of this status.
    pub fn encode(&self) -> (r: String)
        ensures
            r@ == encode_view(self@),
    {
        match self {
            JobStatus::Accepted => String::from_str("Accepted"),
            JobStatus::Done => String::from_str("Done"),
            JobStatus::Error { code, message } => {
                let r = String::from_str("Error(").concat(code.as_str()).concat(": ").concat(
                    message.as_str(),
                ).concat(")");
                r
            },
        }
    }

    /// Reads a wire text back; anything but the three forms is refused.
    pub fn decode(s: &str) -> (r: Result<JobStatus, DecodeError>)
        ensures
            match r {
                Ok(v) => decode_view(s@) == Some(v@),
                Err(e) => decode_view(s@) is None && e.message@ == unknown_message(s@),
            },
    {
        if same_text(s, "Accepted") {
            return Ok(JobStatus::Accepted);
        }
        if same_text(s, "Done") {
            return Ok(JobStatus::Done);
        }
        let n = s.unicode_len();
        if n >= 7 && same_text(s.substring_char(0, 6), "Error(") && s.get_char(n - 1) == ')' {
            let inner = s.substring_char(6, n - 1);
            let m = n - 7;
            assert(inner@ == error_inner(s@));
            let mut i: usize = 0;
            while i < m && inner.get_char(i) != ':'
                invariant
                    m == inner@.len(),
                    i <= m,
                    forall|j: int| 0 <= j < i ==> inner@[j] != ':',
                decreases m - i,
            {
                i = i + 1;
            }
            if i + 1 < m && inner.get_char(i + 1) == ' ' {
                assert(is_first_colon(inner@, i as int));
                assert(is_error_text(s@));
                assert(error_colon(s@) == i) by {
                    let k = error_colon(s@);
                    assert(is_first_colon(inner@, k));
                    if k < i {
                        assert(inner@[k] != ':');
                    }
                    if i < k {
                        assert(inner@[i as int] != ':');
                    }
                }
                let code = String::from_str(inner.substring_char(0, i));
                let message = String::from_str(inner.substring_char(i + 2, m));
                return Ok(JobStatus::Error { code, message });
            }
            assert(!is_error_text(s@)) by {
                if is_error_text(s@) {
                    let k = choose|k: int|
                        is_first_colon(error_inner(s@), k) && k + 1 < error_inner(s@).len()
                            && error_inner(s@)[k + 1] == ' ';
                    if k < i {
                        assert(inner@[k] != ':');
                    }
                    if i < k {
                        assert(inner@[i as int] == ':');
                        assert(inner@[i as int] != ':');
                    }
                }
            }
        }
        let message = String::from_str("Status unknown: ").concat(s);
        Err(DecodeError { message })
    }
}

} // verus!
