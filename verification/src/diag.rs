//! Append-only structured diagnostic log.
//!
//! Every supervisory decision is recorded as one entry. An entry renders to
//! one line of structured text with the fields `location`, `message`, `data`,
//! `timestamp`, `sessionId` and `runId`; the message has embedded double
//! quotes escaped, the data field is a caller-supplied pre-structured
//! payload written through unchanged, and the two identifiers are constant
//! for the log's lifetime so entries of one run can be correlated later.
//!
//! The log keeps its entries in memory, in the order they were recorded,
//! with timestamps that never decrease. Writing a rendered line to a shared
//! destination is I/O and is left to the caller; `record` hands the line
//! back for that purpose. Whether the caller's write succeeds never
//! influences this log: recording cannot fail.

use vstd::prelude::*;

verus! {

/// One structured diagnostic entry: where it was emitted, what happened, a
/// pre-structured payload, when, and the identifiers of the run.
pub struct DiagnosticEvent {
    pub location: String,
    pub message: String,
    pub data: String,
    pub timestamp: u64,
    pub session_id: String,
    pub run_id: String,
}

/// `s` with a backslash written before every double quote.
pub open spec fn escaped(s: Seq<char>) -> Seq<char>
    decreases s.len(),
{
    if s.len() == 0 {
        Seq::empty()
    } else {
        escaped(s.drop_last()) + (if s.last() == '"' {
            seq!['\\', '"']
        } else {
            seq![s.last()]
        })
    }
}

/// The character of one decimal digit.
pub open spec fn spec_digit_char(d: nat) -> char {
    if d == 0 {
        '0'
    } else if d == 1 {
        '1'
    } else if d == 2 {
        '2'
    } else if d == 3 {
        '3'
    } else if d == 4 {
        '4'
    } else if d == 5 {
        '5'
    } else if d == 6 {
        '6'
    } else if d == 7 {
        '7'
    } else if d == 8 {
        '8'
    } else {
        '9'
    }
}

/// The decimal writing of `n`, most significant digit first, no sign and no
/// leading zero.
pub open spec fn dec_rep(n: nat) -> Seq<char>
    decreases n,
{
    if n < 10 {
        seq![spec_digit_char(n)]
    } else {
        dec_rep(n / 10) + seq![spec_digit_char(n % 10)]
    }
}

/// The one line an entry renders to: a brace-delimited record of the six
/// fields, message escaped, data written through unchanged.
pub open spec fn rendered(ev: DiagnosticEvent) -> Seq<char> {
    "{\"location\":\""@ + ev.location@ + "\",\"message\":\""@ + escaped(ev.message@)
        + "\",\"data\":"@ + ev.data@ + ",\"timestamp\":"@ + dec_rep(ev.timestamp as nat)
        + ",\"sessionId\":\""@ + ev.session_id@ + "\",\"runId\":\""@ + ev.run_id@ + "\"}"@
}

/// Timestamps never decrease along the entries.
pub open spec fn timestamps_monotone(es: Seq<DiagnosticEvent>) -> bool {
    forall|i: int, j: int| 0 <= i <= j < es.len() ==> es[i].timestamp <= es[j].timestamp
}

/// `post` is `pre` with exactly one entry appended: nothing already recorded
/// moved or changed, and the identifier pair is the same.
pub open spec fn appended_one(pre: DiagnosticLog, post: DiagnosticLog) -> bool {
    &&& post.entries@.len() == pre.entries@.len() + 1
    &&& (forall|i: int| 0 <= i < pre.entries@.len() ==> post.entries@[i] == pre.entries@[i])
    &&& post.session_id@ == pre.session_id@
    &&& post.run_id@ == pre.run_id@
}

/// The entry carries exactly this location, message and payload.
pub open spec fn entry_is(
    ev: DiagnosticEvent,
    location: Seq<char>,
    message: Seq<char>,
    data: Seq<char>,
) -> bool {
    &&& ev.location@ == location
    &&& ev.message@ == message
    &&& ev.data@ == data
}

fn digit_str(d: u64) -> (r: &'static str)
    requires
        d < 10,
    ensures
        r@ == seq![spec_digit_char(d as nat)],
{
    if d == 0 {
        proof {
            reveal_strlit("0");
            assert("0"@ =~= seq![spec_digit_char(0)]);
        }
        "0"
    } else if d == 1 {
        proof {
            reveal_strlit("1");
            assert("1"@ =~= seq![spec_digit_char(1)]);
        }
        "1"
    } else if d == 2 {
        proof {
            reveal_strlit("2");
            assert("2"@ =~= seq![spec_digit_char(2)]);
        }
        "2"
    } else if d == 3 {
        proof {
            reveal_strlit("3");
            assert("3"@ =~= seq![spec_digit_char(3)]);
        }
        "3"
    } else if d == 4 {
        proof {
            reveal_strlit("4");
            assert("4"@ =~= seq![spec_digit_char(4)]);
        }
        "4"
    } else if d == 5 {
        proof {
            reveal_strlit("5");
            assert("5"@ =~= seq![spec_digit_char(5)]);
        }
        "5"
    } else if d == 6 {
        proof {
            reveal_strlit("6");
            assert("6"@ =~= seq![spec_digit_char(6)]);
        }
        "6"
    } else if d == 7 {
        proof {
            reveal_strlit("7");
            assert("7"@ =~= seq![spec_digit_char(7)]);
        }
        "7"
    } else if d == 8 {
        proof {
            reveal_strlit("8");
            assert("8"@ =~= seq![spec_digit_char(8)]);
        }
        "8"
    } else {
        proof {
            reveal_strlit("9");
            assert("9"@ =~= seq![spec_digit_char(9)]);
        }
        "9"
    }
}

/// Writes `n` in decimal.
pub fn decimal_string(n: u64) -> (r: String)
    ensures
        r@ == dec_rep(n as nat),
    decreases n,
{
    if n < 10 {
        String::from_str(digit_str(n))
    } else {
        let mut r = decimal_string(n / 10);
        r.append(digit_str(n % 10));
        r
    }
}

/// Copies `s` with a backslash written before every double quote.
pub fn escape_quotes(s: &str) -> (r: String)
    ensures
        r@ == escaped(s@),
{
    let n: usize = s.unicode_len();
    let mut out = String::new();
    let mut i: usize = 0;
    while i < n
        invariant
            0 <= i <= n,
            n == s@.len(),
            out@ == escaped(s@.take(i as int)),
        decreases n - i,
    {
        let c = s.get_char(i);
        if c == '"' {
            proof {
                reveal_strlit("\\\"");
                assert("\\\""@ =~= seq!['\\', '"']);
            }
            out.append("\\\"");
        } else {
            let piece = s.substring_char(i, i + 1);
            proof {
                assert(piece@ =~= seq![s@[i as int]]);
            }
            out.append(piece);
        }
        proof {
            assert(s@.take(i + 1).drop_last() =~= s@.take(i as int));
            assert(s@.take(i + 1).last() == s@[i as int]);
        }
        i = i + 1;
    }
    proof {
        assert(s@.take(n as int) =~= s@);
    }
    out
}

/// Renders one entry as its line.
pub fn render_line(ev: &DiagnosticEvent) -> (r: String)
    ensures
        r@ == rendered(*ev),
{
    let mut out = String::from_str("{\"location\":\"");
    out.append(ev.location.as_str());
    out.append("\",\"message\":\"");
    let esc = escape_quotes(ev.message.as_str());
    out.append(esc.as_str());
    out.append("\",\"data\":");
    out.append(ev.data.as_str());
    out.append(",\"timestamp\":");
    let ts = decimal_string(ev.timestamp);
    out.append(ts.as_str());
    out.append(",\"sessionId\":\"");
    out.append(ev.session_id.as_str());
    out.append("\",\"runId\":\"");
    out.append(ev.run_id.as_str());
    out.append("\"}");
    proof {
        assert(out@ =~= rendered(*ev));
    }
    out
}

/// The append-only diagnostic log: the recorded entries, the pair of
/// identifiers stamped on every entry, and the newest timestamp seen.
pub struct DiagnosticLog {
    pub entries: Vec<DiagnosticEvent>,
    pub session_id: String,
    pub run_id: String,
    pub last_timestamp: u64,
}

impl DiagnosticLog {
    /// The entries are in timestamp order, `last_timestamp` is the newest
    /// one, and every entry carries the log's identifier pair.
    pub open spec fn wf(self) -> bool {
        &&& timestamps_monotone(self.entries@)
        &&& (self.entries@.len() > 0 ==> self.last_timestamp == self.entries@.last().timestamp)
        &&& (self.entries@.len() == 0 ==> self.last_timestamp == 0)
        &&& (forall|i: int|
            0 <= i < self.entries@.len() ==> (#[trigger] self.entries@[i]).timestamp
                <= self.last_timestamp)
        &&& (forall|i: int|
            0 <= i < self.entries@.len() ==> (#[trigger] self.entries@[i]).session_id@
                == self.session_id@)
        &&& (forall|i: int|
            0 <= i < self.entries@.len() ==> (#[trigger] self.entries@[i]).run_id@
                == self.run_id@)
    }

    /// An empty log stamped with the given identifier pair.
    pub fn new(session_id: String, run_id: String) -> (log: Self)
        ensures
            log.wf(),
            log.entries@.len() == 0,
            log.session_id@ == session_id@,
            log.run_id@ == run_id@,
    {
        DiagnosticLog { entries: Vec::new(), session_id, run_id, last_timestamp: 0 }
    }

    /// Appends one entry and hands back its rendered line, for the caller to
    /// write to whatever destination it keeps. Earlier entries are untouched;
    /// the entry's timestamp is the given one, lifted to the newest timestamp
    /// already recorded if the given one lags behind it, so timestamps never
    /// decrease. Recording cannot fail.
    pub fn record(&mut self, location: &str, message: &str, data: &str, timestamp: u64) -> (line:
        String)
        requires
            old(self).wf(),
        ensures
            final(self).wf(),
            final(self).session_id@ == old(self).session_id@,
            final(self).run_id@ == old(self).run_id@,
            final(self).entries@.len() == old(self).entries@.len() + 1,
            forall|i: int|
                0 <= i < old(self).entries@.len() ==> final(self).entries@[i] == old(
                    self,
                ).entries@[i],
            ({
                let ev = final(self).entries@.last();
                &&& ev.location@ == location@
                &&& ev.message@ == message@
                &&& ev.data@ == data@
                &&& ev.timestamp == (if timestamp >= old(self).last_timestamp {
                    timestamp
                } else {
                    old(self).last_timestamp
                })
                &&& ev.session_id@ == old(self).session_id@
                &&& ev.run_id@ == old(self).run_id@
            }),
            line@ == rendered(final(self).entries@.last()),
    {
        let ts: u64 = if timestamp >= self.last_timestamp {
            timestamp
        } else {
            self.last_timestamp
        };
        let ev = DiagnosticEvent {
            location: String::from_str(location),
            message: String::from_str(message),
            data: String::from_str(data),
            timestamp: ts,
            session_id: self.session_id.clone(),
            run_id: self.run_id.clone(),
        };
        let line = render_line(&ev);
        self.last_timestamp = ts;
        self.entries.push(ev);
        line
    }

    /// How many entries have been recorded.
    pub fn len(&self) -> (n: usize)
        ensures
            n == self.entries@.len(),
    {
        self.entries.len()
    }
}

} // verus!
