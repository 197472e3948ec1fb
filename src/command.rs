use vstd::prelude::*;

use crate::store::{CachePurgeVariant, CacheStoreError};

verus! {

/// The shard selected on one control connection.
pub type ControlShard = u8;

/// The result of one dispatched command: a response token, or `Err(None)` for `ERR`.
pub type ControlResult = Result<ControlCommandResponse, Option<()>>;

/// The response tokens of the control protocol.
#[derive(Debug, Clone, Copy, PartialEq, Eq, Structural)]
pub enum ControlCommandResponse {
    Void,
    Nil,
    Okay,
    Pong,
    Ended,
    Error,
}

/// The dispatcher of control commands.
pub struct ControlCommand;

/// A purge that a control command asks for, as the namespace parts of its pattern.
#[derive(Debug, Clone, PartialEq, Eq)]
pub enum FlushRequest {
    /// Every key of `bucket` in `shard`, whatever its auth.
    Bucket { shard: ControlShard, bucket: String },
    /// Every key of `auth` in `shard`, whatever its bucket.
    Auth { shard: ControlShard, auth: String },
}

/// What the connection does after one input line.
#[derive(Debug, Clone, PartialEq, Eq)]
pub enum ControlStep {
    /// Write this response.
    Reply(ControlCommandResponse),
    /// Run this purge, then write the response that `ControlSession::finish_flush` gives.
    Flush(FlushRequest),
    /// Write this response, then close the connection.
    Close(ControlCommandResponse),
    /// The connection has ended: the line is not processed.
    Ignored,
}

/// The state of one control connection.
#[derive(Debug, Clone, Copy, PartialEq, Eq, Structural)]
pub struct ControlSession {
    /// The shard that purge patterns are scoped to.
    pub shard: ControlShard,
    /// Whether `QUIT` has been received.
    pub ended: bool,
}

/// A purge request as the namespace parts of its pattern.
pub enum FlushView {
    Bucket(ControlShard, Seq<char>),
    Auth(ControlShard, Seq<char>),
}

/// What the connection does after one input line, over plain values.
pub enum StepView {
    Reply(ControlCommandResponse),
    Flush(FlushView),
    Close(ControlCommandResponse),
    Ignored,
}

impl FlushRequest {
    pub open spec fn view(&self) -> FlushView {
        match self {
            FlushRequest::Bucket { shard, bucket } => FlushView::Bucket(*shard, bucket@),
            FlushRequest::Auth { shard, auth } => FlushView::Auth(*shard, auth@),
        }
    }

    /// The purge script that this request runs.
    pub fn variant(&self) -> (r: CachePurgeVariant)
        ensures
            r == (match self {
                FlushRequest::Bucket { .. } => CachePurgeVariant::Bucket,
                FlushRequest::Auth { .. } => CachePurgeVariant::Auth,
            }),
    {
        match self {
            FlushRequest::Bucket { .. } => CachePurgeVariant::Bucket,
            FlushRequest::Auth { .. } => CachePurgeVariant::Auth,
        }
    }
}

impl ControlStep {
    pub open spec fn view(&self) -> StepView {
        match self {
            ControlStep::Reply(r) => StepView::Reply(*r),
            ControlStep::Flush(f) => StepView::Flush(f.view()),
            ControlStep::Close(r) => StepView::Close(*r),
            ControlStep::Ignored => StepView::Ignored,
        }
    }
}

/// The text of a response token.
pub open spec fn response_text(r: ControlCommandResponse) -> Seq<char> {
    match r {
        ControlCommandResponse::Void => ""@,
        ControlCommandResponse::Nil => "NIL"@,
        ControlCommandResponse::Okay => "OK"@,
        ControlCommandResponse::Pong => "PONG"@,
        ControlCommandResponse::Ended => "ENDED quit"@,
        ControlCommandResponse::Error => "ERR"@,
    }
}

/// The response token written for a command result.
pub open spec fn result_response(r: ControlResult) -> ControlCommandResponse {
    match r {
        Ok(resp) => resp,
        Err(_) => ControlCommandResponse::Error,
    }
}

/// Whether `c` is a decimal digit.
pub open spec fn is_digit(c: char) -> bool {
    '0' <= c && c <= '9'
}

/// The value of a string of decimal digits.
pub open spec fn decimal_value(d: Seq<char>) -> nat
    decreases d.len(),
{
    if d.len() == 0 {
        0
    } else {
        decimal_value(d.drop_last()) * 10 + (d.last() as int - '0' as int) as nat
    }
}

/// A shard number as text: an optional `+`, then one or more decimal digits whose
/// value fits in a `u8`.
pub open spec fn parse_u8_spec(s: Seq<char>) -> Option<u8> {
    let d = if s.len() > 0 && s[0] == '+' {
        s.drop_first()
    } else {
        s
    };
    if d.len() > 0 && (forall|i: int| 0 <= i < d.len() ==> is_digit(#[trigger] d[i]))
        && decimal_value(d) <= 255 {
        Some(decimal_value(d) as u8)
    } else {
        None
    }
}

/// The argument of a command line: its second word, or empty.
pub open spec fn arg_of(words: Seq<Seq<char>>) -> Seq<char> {
    if words.len() > 1 {
        words[1]
    } else {
        Seq::<char>::empty()
    }
}

/// The next state of a connection and what it does, for a line of `words`.
pub open spec fn step(s: ControlSession, words: Seq<Seq<char>>) -> (ControlSession, StepView) {
    let arg = arg_of(words);
    if s.ended {
        (s, StepView::Ignored)
    } else if words.len() == 0 {
        (s, StepView::Reply(ControlCommandResponse::Error))
    } else if words[0] == "FLUSHBUCKET"@ {
        if arg.len() > 0 {
            (s, StepView::Flush(FlushView::Bucket(s.shard, arg)))
        } else {
            (s, StepView::Reply(ControlCommandResponse::Error))
        }
    } else if words[0] == "FLUSHAUTH"@ {
        if arg.len() > 0 {
            (s, StepView::Flush(FlushView::Auth(s.shard, arg)))
        } else {
            (s, StepView::Reply(ControlCommandResponse::Error))
        }
    } else if words[0] == "PING"@ {
        (s, StepView::Reply(ControlCommandResponse::Pong))
    } else if words[0] == "SHARD"@ {
        match parse_u8_spec(arg) {
            Some(n) => (ControlSession { shard: n, ended: false }, StepView::Reply(ControlCommandResponse::Okay)),
            None => (s, StepView::Reply(ControlCommandResponse::Error)),
        }
    } else if words[0] == "QUIT"@ {
        (ControlSession { shard: s.shard, ended: true }, StepView::Close(ControlCommandResponse::Ended))
    } else {
        (s, StepView::Reply(ControlCommandResponse::Error))
    }
}

/// The words of a line, split at whitespace.
pub uninterp spec fn words_of(line: Seq<char>) -> Seq<Seq<char>>;

/// Relies on str::split_whitespace: the words of the line, in order.
#[verifier::external_body]
fn split_words(line: &str) -> (r: Vec<String>)
    ensures
        r@.len() == words_of(line@).len(),
        forall|i: int| 0 <= i < r@.len() ==> #[trigger] r@[i]@ == words_of(line@)[i],
{
    line.split_whitespace().map(|w| w.to_string()).collect()
}

/// Relies on u8's FromStr (str::parse): an optional `+`, then one or more decimal
/// digits whose value fits in a `u8`; anything else is an error.
#[verifier::external_body]
fn parse_u8(s: &str) -> (r: Option<u8>)
    ensures
        r == parse_u8_spec(s@),
{
    s.parse::<u8>().ok()
}

/// Whether `w` is the text `lit`.
fn word_is(w: &String, lit: &str) -> (r: bool)
    ensures
        r == (w@ == lit@),
{
    *w == lit.to_string()
}

impl ControlCommandResponse {
    /// The text of this response token.
    pub fn to_str(&self) -> (r: &'static str)
        ensures
            r@ == response_text(*self),
    {
        match *self {
            ControlCommandResponse::Void => "",
            ControlCommandResponse::Nil => "NIL",
            ControlCommandResponse::Okay => "OK",
            ControlCommandResponse::Pong => "PONG",
            ControlCommandResponse::Ended => "ENDED quit",
            ControlCommandResponse::Error => "ERR",
        }
    }
}

impl ControlCommand {
    /// A bucket purge in `shard`; `ERR` when the bucket is empty.
    pub fn dispatch_flush_bucket(shard: &ControlShard, bucket: &str) -> (r: Result<
        FlushRequest,
        Option<()>,
    >)
        ensures
            bucket@.len() > 0 ==> r is Ok && r->Ok_0@ == FlushView::Bucket(*shard, bucket@),
            bucket@.len() == 0 ==> r == Err::<FlushRequest, Option<()>>(None),
    {
        if bucket.unicode_len() > 0 {
            Ok(FlushRequest::Bucket { shard: *shard, bucket: bucket.to_string() })
        } else {
            Err(None)
        }
    }

    /// An auth purge in `shard`; `ERR` when the auth is empty.
    pub fn dispatch_flush_auth(shard: &ControlShard, auth: &str) -> (r: Result<
        FlushRequest,
        Option<()>,
    >)
        ensures
            auth@.len() > 0 ==> r is Ok && r->Ok_0@ == FlushView::Auth(*shard, auth@),
            auth@.len() == 0 ==> r == Err::<FlushRequest, Option<()>>(None),
    {
        if auth.unicode_len() > 0 {
            Ok(FlushRequest::Auth { shard: *shard, auth: auth.to_string() })
        } else {
            Err(None)
        }
    }

    /// `PONG`, whatever the state.
    pub fn dispatch_ping() -> (r: ControlResult)
        ensures
            r == Ok::<ControlCommandResponse, Option<()>>(ControlCommandResponse::Pong),
    {
        Ok(ControlCommandResponse::Pong)
    }

    /// Selects the shard named by `arg`; `ERR`, with the shard unchanged, when `arg` is
    /// not a `u8`.
    pub fn dispatch_shard(shard: &mut ControlShard, arg: &str) -> (r: ControlResult)
        ensures
            match parse_u8_spec(arg@) {
                Some(n) => *final(shard) == n && r == Ok::<ControlCommandResponse, Option<()>>(
                    ControlCommandResponse::Okay,
                ),
                None => *final(shard) == *old(shard) && r == Err::<
                    ControlCommandResponse,
                    Option<()>,
                >(None),
            },
    {
        match parse_u8(arg) {
            Some(shard_to) => {
                *shard = shard_to;
                Ok(ControlCommandResponse::Okay)
            },
            None => Err(None),
        }
    }

    /// `ENDED quit`.
    pub fn dispatch_quit() -> (r: ControlResult)
        ensures
            r == Ok::<ControlCommandResponse, Option<()>>(ControlCommandResponse::Ended),
    {
        Ok(ControlCommandResponse::Ended)
    }

    /// `OK` when the purge succeeded, `ERR` when it failed.
    pub fn proceed_flush(outcome: Result<(), CacheStoreError>) -> (r: ControlResult)
        ensures
            outcome is Ok ==> r == Ok::<ControlCommandResponse, Option<()>>(
                ControlCommandResponse::Okay,
            ),
            outcome is Err ==> r == Err::<ControlCommandResponse, Option<()>>(None),
    {
        match outcome {
            Ok(_) => Ok(ControlCommandResponse::Okay),
            Err(_) => Err(None),
        }
    }

    /// The response token written for a command result: `ERR` for an error.
    pub fn response(result: ControlResult) -> (r: ControlCommandResponse)
        ensures
            r == result_response(result),
    {
        match result {
            Ok(resp) => resp,
            Err(_) => ControlCommandResponse::Error,
        }
    }
}

impl ControlSession {
    /// A fresh connection on `default_shard`.
    pub fn new(default_shard: ControlShard) -> (r: ControlSession)
        ensures
            r.shard == default_shard,
            !r.ended,
    {
        ControlSession { shard: default_shard, ended: false }
    }

    /// Handles one line given as its words.
    pub fn handle_words(&mut self, words: &Vec<String>) -> (r: ControlStep)
        ensures
            (*final(self), r.view()) == step(*old(self), words@.map_values(|w: String| w@)),
    {
        let ghost ws = words@.map_values(|w: String| w@);
        if self.ended {
            return ControlStep::Ignored;
        }
        if words.len() == 0 {
            return ControlStep::Reply(ControlCommandResponse::Error);
        }
        let empty = String::new();
        let arg: &String = if words.len() > 1 {
            &words[1]
        } else {
            &empty
        };
        assert(arg@ == arg_of(ws));
        let verb = &words[0];
        if word_is(verb, "FLUSHBUCKET") {
            match ControlCommand::dispatch_flush_bucket(&self.shard, arg.as_str()) {
                Ok(f) => ControlStep::Flush(f),
                Err(_) => ControlStep::Reply(ControlCommandResponse::Error),
            }
        } else if word_is(verb, "FLUSHAUTH") {
            match ControlCommand::dispatch_flush_auth(&self.shard, arg.as_str()) {
                Ok(f) => ControlStep::Flush(f),
                Err(_) => ControlStep::Reply(ControlCommandResponse::Error),
            }
        } else if word_is(verb, "PING") {
            ControlStep::Reply(ControlCommand::response(ControlCommand::dispatch_ping()))
        } else if word_is(verb, "SHARD") {
            let mut shard = self.shard;
            let result = ControlCommand::dispatch_shard(&mut shard, arg.as_str());
            self.shard = shard;
            ControlStep::Reply(ControlCommand::response(result))
        } else if word_is(verb, "QUIT") {
            self.ended = true;
            ControlStep::Close(ControlCommand::response(ControlCommand::dispatch_quit()))
        } else {
            ControlStep::Reply(ControlCommandResponse::Error)
        }
    }

    /// Handles one input line.
    pub fn handle_line(&mut self, line: &str) -> (r: ControlStep)
        ensures
            (*final(self), r.view()) == step(*old(self), words_of(line@)),
    {
        let words = split_words(line);
        assert(words@.map_values(|w: String| w@) =~= words_of(line@));
        self.handle_words(&words)
    }

    /// The response to write once the purge of a `Flush` step has run.
    pub fn finish_flush(outcome: Result<(), CacheStoreError>) -> (r: ControlCommandResponse)
        ensures
            outcome is Ok ==> r == ControlCommandResponse::Okay,
            outcome is Err ==> r == ControlCommandResponse::Error,
    {
        ControlCommand::response(ControlCommand::proceed_flush(outcome))
    }
}

/// The five verbs are five different texts.
proof fn lemma_verbs_differ()
    ensures
        "FLUSHBUCKET"@ != "FLUSHAUTH"@,
        "FLUSHBUCKET"@ != "PING"@,
        "FLUSHBUCKET"@ != "SHARD"@,
        "FLUSHBUCKET"@ != "QUIT"@,
        "FLUSHAUTH"@ != "PING"@,
        "FLUSHAUTH"@ != "SHARD"@,
        "FLUSHAUTH"@ != "QUIT"@,
        "PING"@ != "SHARD"@,
        "PING"@ != "QUIT"@,
        "SHARD"@ != "QUIT"@,
{
    reveal_strlit("FLUSHBUCKET");
    reveal_strlit("FLUSHAUTH");
    reveal_strlit("PING");
    reveal_strlit("SHARD");
    reveal_strlit("QUIT");
    assert("FLUSHBUCKET"@.len() == 11);
    assert("FLUSHAUTH"@.len() == 9);
    assert("PING"@.len() == 4);
    assert("SHARD"@.len() == 5);
    assert("QUIT"@.len() == 4);
    assert("PING"@[0] != "QUIT"@[0]);
}

/// After `SHARD <a>` with `a` a valid shard number, `FLUSHBUCKET <b>` asks for a
/// bucket purge scoped to that shard.
pub proof fn lemma_shard_then_flush_bucket(s: ControlSession, a: Seq<char>, b: Seq<char>)
    requires
        !s.ended,
        parse_u8_spec(a) is Some,
        b.len() > 0,
    ensures
        step(step(s, seq!["SHARD"@, a]).0, seq!["FLUSHBUCKET"@, b]).1 == StepView::Flush(
            FlushView::Bucket(parse_u8_spec(a)->Some_0, b),
        ),
{
    lemma_verbs_differ();
}

/// `SHARD <a>` with `a` not a valid shard number answers `ERR` and keeps the shard.
pub proof fn lemma_bad_shard_keeps_state(s: ControlSession, a: Seq<char>)
    requires
        !s.ended,
        parse_u8_spec(a) is None,
    ensures
        step(s, seq!["SHARD"@, a]) == (s, StepView::Reply(ControlCommandResponse::Error)),
{
    lemma_verbs_differ();
}

/// `PING` answers `PONG` and changes nothing, whatever the shard.
pub proof fn lemma_ping_pongs(s: ControlSession, words: Seq<Seq<char>>)
    requires
        !s.ended,
        words.len() > 0,
        words[0] == "PING"@,
    ensures
        step(s, words) == (s, StepView::Reply(ControlCommandResponse::Pong)),
{
    lemma_verbs_differ();
}

/// `QUIT` answers `ENDED quit` and closes; no later line of the connection is
/// processed.
pub proof fn lemma_quit_ends(s: ControlSession, words: Seq<Seq<char>>, later: Seq<Seq<char>>)
    requires
        !s.ended,
        words.len() > 0,
        words[0] == "QUIT"@,
    ensures
        step(s, words).1 == StepView::Close(ControlCommandResponse::Ended),
        step(step(s, words).0, later) == (step(s, words).0, StepView::Ignored),
{
    lemma_verbs_differ();
}

} // verus!
