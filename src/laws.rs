use vstd::prelude::*;
use crate::session::{
    data_command, data_terminator, error_reply, greeting_reply, helo_command, mail_command,
    queued_reply, quit_command, rcpt_command, sent, ActionModel, SessionModel, State,
};

verus! {

/// Whatever the client sends, the first reply of a fresh session is the greeting.
pub proof fn greeting_comes_first(domain: Seq<char>, lines: Seq<Seq<char>>)
    ensures
        SessionModel::initial(domain).run(lines).0.len() >= 1,
        SessionModel::initial(domain).run(lines).0[0] == greeting_reply(),
{
    let s = SessionModel::initial(domain);
    let rest = s.act().0.run(lines);
    assert(s.run(lines).0 == seq![greeting_reply()] + rest.0);
}

/// A first line that does not begin with `HELO` is answered with `Error`, after
/// the greeting and before the end, and no record is produced.
pub proof fn non_helo_is_rejected(domain: Seq<char>, lines: Seq<Seq<char>>)
    requires
        lines.len() > 0,
        !helo_command().is_prefix_of(lines[0]),
    ensures
        SessionModel::initial(domain).run(lines).0 == seq![greeting_reply(), error_reply()],
        SessionModel::initial(domain).run(lines).1.state == State::End,
        SessionModel::initial(domain).run(lines).1.message is None,
{
    let s0 = SessionModel::initial(domain);
    let s1 = s0.flushing(State::ReceiveGreeting);
    let s2 = s0.acting(State::ReceiveGreeting);
    let s3 = s0.acting(State::Rejected);
    let s4 = s0.flushing(State::End);
    let s5 = s0.acting(State::End);
    let tail = lines.drop_first();
    assert(s5.run(tail) == (Seq::<Seq<char>>::empty(), s5));
    assert(s4.run(tail) == s5.run(tail));
    assert(s3.run(tail).0 == seq![error_reply()] + s4.run(tail).0);
    assert(s2.receive(Some(lines[0])) == (s3, None::<Seq<char>>));
    assert(s2.run(lines).0 == sent(None) + s3.run(tail).0);
    assert(s1.run(lines) == s2.run(lines));
    assert(s0.run(lines).0 == seq![greeting_reply()] + s1.run(lines).0);
    assert(s0.run(lines).0 =~= seq![greeting_reply(), error_reply()]);
}

/// In the `Accept` state a line that starts with none of `MAIL FROM:`,
/// `RCPT TO:`, `DATA` and `QUIT` is answered with `Error` and ends the
/// dialogue, whatever record was built so far and whatever would follow.
pub proof fn unknown_command_is_rejected(s: SessionModel, line: Seq<char>, rest: Seq<Seq<char>>)
    requires
        !s.pending_flush,
        s.state == State::Accept,
        !mail_command().is_prefix_of(line),
        !rcpt_command().is_prefix_of(line),
        !data_command().is_prefix_of(line),
        !quit_command().is_prefix_of(line),
    ensures
        s.run(seq![line] + rest) == (seq![error_reply()], s.acting(State::End)),
{
    let lines = seq![line] + rest;
    assert(lines[0] == line);
    assert(lines.drop_first() =~= rest);
    let s3 = s.acting(State::Rejected);
    let s4 = s.flushing(State::End);
    let s5 = s.acting(State::End);
    assert(s5.run(rest) == (Seq::<Seq<char>>::empty(), s5));
    assert(s4.run(rest) == s5.run(rest));
    assert(s3.run(rest).0 =~= seq![error_reply()]);
    assert(s.run(lines).0 =~= sent(None) + s3.run(rest).0);
    assert(s.run(lines).0 =~= seq![error_reply()]);
}

/// While the body is read, exactly the line `.` ends it: that line is answered
/// and leaves the record as it was; every other line, a line that starts with
/// `.` among them, is appended to the body as it is and the body goes on.
pub proof fn only_a_lone_dot_ends_the_body(s: SessionModel, line: Seq<char>)
    requires
        !s.pending_flush,
        s.state == State::AcceptData,
    ensures
        line == data_terminator() ==> s.receive(Some(line)) == (
            s.flushing(State::Accept),
            Some(queued_reply()),
        ),
        line != data_terminator() ==> s.receive(Some(line)) == (
            s.with_record(s.record().with_body(line)),
            None::<Seq<char>>,
        ),
        line != data_terminator() ==> s.receive(Some(line)).0.state == State::AcceptData,
        line != data_terminator() ==> s.receive(Some(line)).0.record().data == s.record().data.push(
            line,
        ),
{
}

/// Two `RCPT TO:` lines in a row are both kept, in the order they came, after
/// the recipients recorded before, with no deduplication.
pub proof fn recipients_accumulate_in_order(s: SessionModel, first: Seq<char>, second: Seq<char>)
    requires
        !s.pending_flush,
        s.state == State::Accept,
        rcpt_command().is_prefix_of(first),
        rcpt_command().is_prefix_of(second),
    ensures
        s.receive(Some(first)).0.flushed().receive(Some(second)).0.record().to == s.record().to
            + seq![first, second],
        s.receive(Some(first)).0.flushed().receive(Some(second)).0.state == State::Accept,
{
    rcpt_is_not_mail(first);
    rcpt_is_not_mail(second);
    let t = s.receive(Some(first)).0.flushed();
    assert(t.record().to == s.record().to.push(first));
    assert(t.receive(Some(second)).0.record().to == t.record().to.push(second));
    assert(s.record().to.push(first).push(second) =~= s.record().to + seq![first, second]);
}

proof fn rcpt_is_not_mail(line: Seq<char>)
    requires
        rcpt_command().is_prefix_of(line),
    ensures
        !mail_command().is_prefix_of(line),
{
    reveal_strlit("RCPT TO:");
    reveal_strlit("MAIL FROM:");
    assert(rcpt_command()[0] == 'R');
    assert(line.subrange(0, rcpt_command().len() as int)[0] == 'R');
    assert(line[0] == 'R');
    assert(mail_command()[0] == 'M');
}

/// Once the session has reached its end it stays there: asking it for its next
/// action again gives the same `Done` and no reply, a read or a flush changes
/// nothing, and running it further sends nothing.
pub proof fn end_is_final(s: SessionModel, line: Option<Seq<char>>, lines: Seq<Seq<char>>)
    requires
        !s.pending_flush,
        s.state == State::End,
    ensures
        s.act() == (s, ActionModel::Done),
        s.act().0.act() == s.act(),
        s.receive(line) == (s, None::<Seq<char>>),
        s.flushed() == s,
        s.run(lines) == (Seq::<Seq<char>>::empty(), s),
{
}

} // verus!
