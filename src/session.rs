use vstd::prelude::*;
use vstd::string::StringExecFns;
use crate::message::{lines_view, Message, MessageModel};
use crate::text::{has_prefix, is_exactly};

verus! {

/// The named stage of a dialogue.
#[derive(Clone, Copy, PartialEq, Eq, Structural, Debug)]
pub enum State {
    SendGreeting,
    ReceiveGreeting,
    Accepted,
    Rejected,
    Accept,
    AcceptData,
    End,
}

/// The one configurable value of a session: the domain named in the reply to `HELO`.
pub struct Config {
    pub domain: String,
}

/// One dialogue, from greeting to termination.
///
/// `pending_flush` set means a reply was just enqueued and has to be flushed
/// before `state` may act again; clear means `state` may act now.
pub struct Smtp {
    pub config: Config,
    pub pending_flush: bool,
    pub state: State,
    pub message: Option<Message>,
}

/// What the caller has to do next on the session's behalf.
pub enum Action {
    /// Enqueue this line for sending; a flush is asked for next.
    Send(String),
    /// Read the next line and hand it to [`Smtp::receive`].
    Read,
    /// Flush what was enqueued, then call [`Smtp::flushed`].
    Flush,
    /// The dialogue is over; the record can be taken with [`Smtp::take_message`].
    Done,
}

/// What an [`Action`] asks for, as values.
pub enum ActionModel {
    Send(Seq<char>),
    Read,
    Flush,
    Done,
}

impl View for Action {
    type V = ActionModel;

    open spec fn view(&self) -> ActionModel {
        match self {
            Action::Send(s) => ActionModel::Send(s@),
            Action::Read => ActionModel::Read,
            Action::Flush => ActionModel::Flush,
            Action::Done => ActionModel::Done,
        }
    }
}

/// The record a session holds, if any, as values.
pub open spec fn message_view(m: Option<Message>) -> Option<MessageModel> {
    match m {
        Some(m) => Some(m@),
        None => None,
    }
}

/// A session, seen as values.
pub struct SessionModel {
    pub domain: Seq<char>,
    pub pending_flush: bool,
    pub state: State,
    pub message: Option<MessageModel>,
}

impl View for Smtp {
    type V = SessionModel;

    open spec fn view(&self) -> SessionModel {
        SessionModel {
            domain: self.config.domain@,
            pending_flush: self.pending_flush,
            state: self.state,
            message: message_view(self.message),
        }
    }
}

pub open spec fn greeting_reply() -> Seq<char> {
    "220 local ESMTP smteepee"@
}

pub open spec fn welcome_reply(domain: Seq<char>) -> Seq<char> {
    "250 "@ + domain + ", I hope this day finds you well."@
}

pub open spec fn ok_reply() -> Seq<char> {
    "250 OK"@
}

pub open spec fn data_reply() -> Seq<char> {
    "354 End data with <CR><LF>.<CR><LF>"@
}

pub open spec fn queued_reply() -> Seq<char> {
    "250 Ok: queued as plork"@
}

pub open spec fn bye_reply() -> Seq<char> {
    "221 Bye"@
}

pub open spec fn error_reply() -> Seq<char> {
    "Error"@
}

pub open spec fn helo_command() -> Seq<char> {
    "HELO"@
}

pub open spec fn mail_command() -> Seq<char> {
    "MAIL FROM:"@
}

pub open spec fn rcpt_command() -> Seq<char> {
    "RCPT TO:"@
}

pub open spec fn data_command() -> Seq<char> {
    "DATA"@
}

pub open spec fn quit_command() -> Seq<char> {
    "QUIT"@
}

pub open spec fn data_terminator() -> Seq<char> {
    "."@
}

/// The replies that an optional reply contributes to the outbound sequence.
pub open spec fn sent(reply: Option<Seq<char>>) -> Seq<Seq<char>> {
    match reply {
        Some(r) => seq![r],
        None => Seq::empty(),
    }
}

impl SessionModel {
    /// A fresh session: about to send the greeting, with no record yet.
    pub open spec fn initial(domain: Seq<char>) -> SessionModel {
        SessionModel { domain, pending_flush: false, state: State::SendGreeting, message: None }
    }

    /// The record so far, or an empty one where none was created yet.
    pub open spec fn record(self) -> MessageModel {
        match self.message {
            Some(m) => m,
            None => MessageModel::empty(),
        }
    }

    /// Acting in `state`, no flush outstanding.
    pub open spec fn acting(self, state: State) -> SessionModel {
        SessionModel { pending_flush: false, state, ..self }
    }

    /// A reply was enqueued; `state` acts once it is flushed.
    pub open spec fn flushing(self, state: State) -> SessionModel {
        SessionModel { pending_flush: true, state, ..self }
    }

    pub open spec fn with_record(self, m: MessageModel) -> SessionModel {
        SessionModel { message: Some(m), ..self }
    }

    /// The next action, and the session after it was asked for.
    pub open spec fn act(self) -> (SessionModel, ActionModel) {
        if self.pending_flush {
            (self, ActionModel::Flush)
        } else {
            match self.state {
                State::SendGreeting => (
                    self.flushing(State::ReceiveGreeting),
                    ActionModel::Send(greeting_reply()),
                ),
                State::Accepted => (
                    self.flushing(State::Accept),
                    ActionModel::Send(welcome_reply(self.domain)),
                ),
                State::Rejected => (self.flushing(State::End), ActionModel::Send(error_reply())),
                State::End => (self, ActionModel::Done),
                _ => (self, ActionModel::Read),
            }
        }
    }

    /// The session once an outstanding flush has completed.
    pub open spec fn flushed(self) -> SessionModel {
        if self.pending_flush {
            self.acting(self.state)
        } else {
            self
        }
    }

    /// The session after a read delivered `line` (`None`: the connection
    /// closed), with the reply to enqueue, if any. A session that asked for no
    /// read is left as it is. A connection that closes while the body is read
    /// ends the dialogue, with no reply and the record as it stands.
    pub open spec fn receive(self, line: Option<Seq<char>>) -> (SessionModel, Option<Seq<char>>) {
        if self.pending_flush {
            (self, None)
        } else {
            match self.state {
                State::ReceiveGreeting => match line {
                    Some(l) => if helo_command().is_prefix_of(l) {
                        (self.acting(State::Accepted), None)
                    } else {
                        (self.acting(State::Rejected), None)
                    },
                    None => (self.acting(State::Rejected), None),
                },
                State::Accept => match line {
                    Some(l) => if mail_command().is_prefix_of(l) {
                        (
                            self.with_record(self.record().with_from(l)).flushing(State::Accept),
                            Some(ok_reply()),
                        )
                    } else if rcpt_command().is_prefix_of(l) {
                        (
                            self.with_record(self.record().with_rcpt(l)).flushing(State::Accept),
                            Some(ok_reply()),
                        )
                    } else if data_command().is_prefix_of(l) {
                        (self.flushing(State::AcceptData), Some(data_reply()))
                    } else if quit_command().is_prefix_of(l) {
                        (self.flushing(State::End), Some(bye_reply()))
                    } else {
                        (self.acting(State::Rejected), None)
                    },
                    None => (self.acting(State::Rejected), None),
                },
                State::AcceptData => match line {
                    Some(l) => if l == data_terminator() {
                        (self.flushing(State::Accept), Some(queued_reply()))
                    } else {
                        (self.with_record(self.record().with_body(l)), None)
                    },
                    None => (self.acting(State::End), None),
                },
                _ => (self, None),
            }
        }
    }

    /// How far the session is from its end without reading another line.
    pub open spec fn rank(self) -> nat {
        let base: nat = match self.state {
            State::SendGreeting => 3,
            State::Accepted => 3,
            State::ReceiveGreeting => 2,
            State::Accept => 2,
            State::AcceptData => 2,
            State::Rejected => 1,
            State::End => 0,
        };
        2 * base + if self.pending_flush { 1nat } else { 0nat }
    }

    /// The replies sent and the final session when the session runs against a
    /// connection that delivers `lines` in order, then closes, and on which
    /// every flush completes.
    pub open spec fn run(self, lines: Seq<Seq<char>>) -> (Seq<Seq<char>>, SessionModel)
        decreases lines.len(), self.rank(),
    {
        if self.pending_flush {
            self.flushed().run(lines)
        } else {
            match self.act().1 {
                ActionModel::Send(r) => {
                    let rest = self.act().0.run(lines);
                    (seq![r] + rest.0, rest.1)
                },
                ActionModel::Read => if lines.len() == 0 {
                    let (next, reply) = self.receive(None);
                    let rest = next.run(lines);
                    (sent(reply) + rest.0, rest.1)
                } else {
                    let (next, reply) = self.receive(Some(lines[0]));
                    let rest = next.run(lines.drop_first());
                    (sent(reply) + rest.0, rest.1)
                },
                _ => (Seq::empty(), self),
            }
        }
    }
}

/// Running a session always brings it to its end, with no flush outstanding.
pub proof fn run_reaches_end(s: SessionModel, lines: Seq<Seq<char>>)
    ensures
        s.run(lines).1.state == State::End,
        !s.run(lines).1.pending_flush,
    decreases lines.len(), s.rank(),
{
    if s.pending_flush {
        run_reaches_end(s.flushed(), lines);
    } else {
        match s.act().1 {
            ActionModel::Send(r) => {
                run_reaches_end(s.act().0, lines);
            },
            ActionModel::Read => {
                if lines.len() == 0 {
                    run_reaches_end(s.receive(None).0, lines);
                } else {
                    run_reaches_end(s.receive(Some(lines[0])).0, lines.drop_first());
                }
            },
            _ => {},
        }
    }
}

impl Smtp {
    /// A session about to greet its client, with no record yet.
    pub fn new(config: Config) -> (s: Smtp)
        ensures
            s@ == SessionModel::initial(config.domain@),
    {
        Smtp { config, pending_flush: false, state: State::SendGreeting, message: None }
    }

    /// Creates the record if there is none yet.
    fn set_message(&mut self)
        ensures
            final(self)@ == old(self)@.with_record(old(self)@.record()),
    {
        if self.message.is_none() {
            self.message = Some(Message::new());
        }
    }

    fn set_from(&mut self, from: String)
        ensures
            final(self)@ == old(self)@.with_record(old(self)@.record().with_from(from@)),
    {
        self.set_message();
        match &mut self.message {
            Some(m) => m.set_from(from),
            None => {},
        }
    }

    fn set_rcpt(&mut self, to: String)
        ensures
            final(self)@ == old(self)@.with_record(old(self)@.record().with_rcpt(to@)),
    {
        self.set_message();
        match &mut self.message {
            Some(m) => m.add_rcpt(to),
            None => {},
        }
    }

    fn set_body(&mut self, data: String)
        ensures
            final(self)@ == old(self)@.with_record(old(self)@.record().with_body(data@)),
    {
        self.set_message();
        match &mut self.message {
            Some(m) => m.add_body(data),
            None => {},
        }
    }

    /// Asks the session what to do next. Where it acts by sending, the reply
    /// is handed out and the session moves on to wait for its flush; it is
    /// never handed out twice.
    pub fn next_action(&mut self) -> (a: Action)
        ensures
            (final(self)@, a@) == old(self)@.act(),
    {
        if self.pending_flush {
            return Action::Flush;
        }
        match self.state {
            State::SendGreeting => {
                self.pending_flush = true;
                self.state = State::ReceiveGreeting;
                Action::Send(String::from_str("220 local ESMTP smteepee"))
            },
            State::Accepted => {
                let reply = String::from_str("250 ").concat(self.config.domain.as_str()).concat(
                    ", I hope this day finds you well.",
                );
                self.pending_flush = true;
                self.state = State::Accept;
                Action::Send(reply)
            },
            State::Rejected => {
                self.pending_flush = true;
                self.state = State::End;
                Action::Send(String::from_str("Error"))
            },
            State::End => Action::Done,
            _ => Action::Read,
        }
    }

    /// Records that the outstanding flush has completed.
    pub fn flushed(&mut self)
        ensures
            final(self)@ == old(self)@.flushed(),
    {
        self.pending_flush = false;
    }

    /// Hands the session the line that a read delivered, `None` where the
    /// connection closed, and returns the reply to enqueue, if any. Once the
    /// body is being read, a closed connection ends the dialogue and keeps the
    /// record built so far.
    pub fn receive(&mut self, line: Option<String>) -> (reply: Option<String>)
        ensures
            (final(self)@, reply.deep_view()) == old(self)@.receive(line.deep_view()),
    {
        if self.pending_flush {
            return None;
        }
        match self.state {
            State::ReceiveGreeting => {
                match line {
                    Some(l) => {
                        if has_prefix(l.as_str(), "HELO") {
                            self.state = State::Accepted;
                        } else {
                            self.state = State::Rejected;
                        }
                    },
                    None => {
                        self.state = State::Rejected;
                    },
                }
                None
            },
            State::Accept => match line {
                Some(l) => {
                    if has_prefix(l.as_str(), "MAIL FROM:") {
                        self.set_from(l);
                        self.pending_flush = true;
                        Some(String::from_str("250 OK"))
                    } else if has_prefix(l.as_str(), "RCPT TO:") {
                        self.set_rcpt(l);
                        self.pending_flush = true;
                        Some(String::from_str("250 OK"))
                    } else if has_prefix(l.as_str(), "DATA") {
                        self.pending_flush = true;
                        self.state = State::AcceptData;
                        Some(String::from_str("354 End data with <CR><LF>.<CR><LF>"))
                    } else if has_prefix(l.as_str(), "QUIT") {
                        self.pending_flush = true;
                        self.state = State::End;
                        Some(String::from_str("221 Bye"))
                    } else {
                        self.state = State::Rejected;
                        None
                    }
                },
                None => {
                    self.state = State::Rejected;
                    None
                },
            },
            State::AcceptData => match line {
                Some(l) => {
                    if is_exactly(l.as_str(), ".") {
                        self.pending_flush = true;
                        self.state = State::Accept;
                        Some(String::from_str("250 Ok: queued as plork"))
                    } else {
                        self.set_body(l);
                        None
                    }
                },
                None => {
                    self.state = State::End;
                    None
                },
            },
            _ => None,
        }
    }

    /// Runs the dialogue to its end against a connection that delivers
    /// `lines` in order, then closes, and on which every flush completes.
    /// Returns the replies sent, in order.
    pub fn run(&mut self, lines: &Vec<String>) -> (replies: Vec<String>)
        ensures
            (lines_view(replies@), final(self)@) == old(self)@.run(lines_view(lines@)),
            final(self).state == State::End,
    {
        proof {
            run_reaches_end(self@, lines_view(lines@));
        }
        let ghost all = lines_view(lines@);
        let ghost start = self@;
        let mut replies: Vec<String> = Vec::new();
        let mut i: usize = 0;
        assert(all.skip(0) =~= all);
        assert(lines_view(replies@) + start.run(all).0 =~= start.run(all).0);
        loop
            invariant
                all == lines_view(lines@),
                i <= lines@.len(),
                start.run(all).0 == lines_view(replies@) + self@.run(all.skip(i as int)).0,
                start.run(all).1 == self@.run(all.skip(i as int)).1,
            ensures
                start.run(all) == (lines_view(replies@), self@),
            decreases lines@.len() - i, self@.rank(),
        {
            let ghost rest = all.skip(i as int);
            let ghost prev = lines_view(replies@);
            match self.next_action() {
                Action::Flush => {
                    self.flushed();
                },
                Action::Send(r) => {
                    replies.push(r);
                    assert(lines_view(replies@) =~= prev + seq![r@]);
                    assert(prev + (seq![r@] + self@.run(rest).0) =~= lines_view(replies@)
                        + self@.run(rest).0);
                },
                Action::Read => {
                    let line = if i < lines.len() {
                        let l = lines[i].clone();
                        i = i + 1;
                        assert(rest.drop_first() =~= all.skip(i as int));
                        Some(l)
                    } else {
                        None
                    };
                    assert(line.deep_view() == if rest.len() == 0 { None } else { Some(rest[0]) });
                    let reply = self.receive(line);
                    match reply {
                        Some(r) => {
                            replies.push(r);
                            assert(lines_view(replies@) =~= prev + seq![r@]);
                        },
                        None => {
                            assert(lines_view(replies@) =~= prev);
                        },
                    }
                    assert(prev + (sent(reply.deep_view()) + self@.run(all.skip(i as int)).0)
                        =~= lines_view(replies@) + self@.run(all.skip(i as int)).0);
                },
                Action::Done => {
                    assert(prev + Seq::<Seq<char>>::empty() =~= prev);
                    break;
                },
            }
        }
        replies
    }

    /// Moves the record out of the session, leaving none behind.
    pub fn take_message(&mut self) -> (m: Option<Message>)
        ensures
            message_view(m) == old(self)@.message,
            final(self)@ == (SessionModel { message: None, ..old(self)@ }),
    {
        self.message.take()
    }
}

} // verus!
