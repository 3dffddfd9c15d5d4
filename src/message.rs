use vstd::prelude::*;

verus! {

/// The mail being assembled by one session: the sender line, every recipient
/// line, and the body lines, all kept verbatim as they arrived.
#[derive(Debug)]
pub struct Message {
    pub from: Option<String>,
    pub to: Vec<String>,
    pub data: Vec<String>,
}

/// What a [`Message`] holds, as sequences of characters.
pub struct MessageModel {
    pub from: Option<Seq<char>>,
    pub to: Seq<Seq<char>>,
    pub data: Seq<Seq<char>>,
}

/// A sequence of lines, seen as sequences of characters.
pub open spec fn lines_view(v: Seq<String>) -> Seq<Seq<char>> {
    v.map_values(|s: String| s@)
}

impl View for Message {
    type V = MessageModel;

    open spec fn view(&self) -> MessageModel {
        MessageModel {
            from: match self.from {
                Some(f) => Some(f@),
                None => None,
            },
            to: lines_view(self.to@),
            data: lines_view(self.data@),
        }
    }
}

impl MessageModel {
    /// A record with no sender, no recipients and no body.
    pub open spec fn empty() -> MessageModel {
        MessageModel { from: None, to: Seq::empty(), data: Seq::empty() }
    }

    pub open spec fn with_from(self, line: Seq<char>) -> MessageModel {
        MessageModel { from: Some(line), ..self }
    }

    pub open spec fn with_rcpt(self, line: Seq<char>) -> MessageModel {
        MessageModel { to: self.to.push(line), ..self }
    }

    pub open spec fn with_body(self, line: Seq<char>) -> MessageModel {
        MessageModel { data: self.data.push(line), ..self }
    }
}

impl Message {
    /// An empty record.
    pub fn new() -> (m: Message)
        ensures
            m@ == MessageModel::empty(),
    {
        let m = Message { from: None, to: Vec::new(), data: Vec::new() };
        assert(m@.to =~= Seq::<Seq<char>>::empty());
        assert(m@.data =~= Seq::<Seq<char>>::empty());
        m
    }

    /// Sets the sender line, replacing any earlier one.
    pub fn set_from(&mut self, line: String)
        ensures
            final(self)@ == old(self)@.with_from(line@),
    {
        self.from = Some(line);
    }

    /// Appends a recipient line after those already recorded.
    pub fn add_rcpt(&mut self, line: String)
        ensures
            final(self)@ == old(self)@.with_rcpt(line@),
    {
        self.to.push(line);
        assert(self@.to =~= old(self)@.to.push(line@));
    }

    /// Appends a body line after those already recorded.
    pub fn add_body(&mut self, line: String)
        ensures
            final(self)@ == old(self)@.with_body(line@),
    {
        self.data.push(line);
        assert(self@.data =~= old(self)@.data.push(line@));
    }
}

} // verus!
