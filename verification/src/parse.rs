//! The inbound adapter that turns framed lines into a flat stream of
//! messages: each line is handed to a line mapper, and the resulting lists
//! are flattened in order.

use vstd::prelude::*;

use crate::codec::{decode_line, decoder_safe, line_msg_texts, msg_texts, DecodePolicy, Msg};

verus! {

/// How one line becomes messages: through the delegated protocol grammar,
/// or taken whole as one opaque message per line.
#[derive(Clone, Copy, PartialEq, Eq, Structural, Debug)]
pub enum LineMapper {
    Uci,
    Plain,
}

/// The canonical texts that one line yields under a mapper. A line the
/// delegated decoder would abort on is not handed to it and yields itself,
/// whole.
pub open spec fn mapped_texts(mapper: LineMapper, l: Seq<char>) -> Seq<Seq<char>> {
    match mapper {
        LineMapper::Uci => if decoder_safe(l) {
            line_msg_texts(l)
        } else {
            seq![l]
        },
        LineMapper::Plain => seq![l],
    }
}

/// The flattened texts that a sequence of lines yields, in order.
pub open spec fn mapped_all(mapper: LineMapper, ls: Seq<Seq<char>>) -> Seq<Seq<char>>
    decreases ls.len(),
{
    if ls.len() == 0 {
        Seq::<Seq<char>>::empty()
    } else {
        mapped_texts(mapper, ls[0]) + mapped_all(mapper, ls.drop_first())
    }
}

/// The views of a sequence of lines.
pub open spec fn line_views(ls: Seq<String>) -> Seq<Seq<char>> {
    ls.map_values(|l: String| l@)
}

/// A parser over framed lines: maps each line to zero, one or many messages
/// and flattens the results in order.
pub struct Parser {
    pub mapper: LineMapper,
}

/// The parser that reads protocol messages through the delegated grammar.
pub type UciParser = Parser;

/// The parser that takes each line whole as one message.
pub type StringParser = Parser;

impl Parser {
    pub fn new(mapper: LineMapper) -> (p: Parser)
        ensures
            p.mapper == mapper,
    {
        Parser { mapper }
    }

    /// The parser over the delegated protocol grammar.
    pub fn new_uci() -> (p: Parser)
        ensures
            p.mapper == LineMapper::Uci,
    {
        Parser { mapper: LineMapper::Uci }
    }

    /// The parser that yields each line as one opaque message.
    pub fn new_string() -> (p: Parser)
        ensures
            p.mapper == LineMapper::Plain,
    {
        Parser { mapper: LineMapper::Plain }
    }

    /// Maps one line to its messages, in order. Under the protocol mapper a
    /// line yielding several messages is flattened, never an error.
    pub fn map_line(&self, line: &String) -> (ms: Vec<Msg>)
        ensures
            msg_texts(ms@) == mapped_texts(self.mapper, line@),
    {
        match self.mapper {
            LineMapper::Uci => match decode_line(line.as_str(), DecodePolicy::Lenient) {
                Ok(ms) => ms,
                Err(_) => vstd::pervasive::unreached(),
            },
            LineMapper::Plain => {
                let mut ms: Vec<Msg> = Vec::new();
                ms.push(Msg::new(line.clone()));
                proof {
                    assert(msg_texts(ms@) =~= seq![line@]);
                }
                ms
            },
        }
    }

    /// Maps every line and flattens the results: the message stream holds
    /// each line's messages in order, lines in their given order.
    pub fn poll_msg(&self, lines: &Vec<String>) -> (ms: Vec<Msg>)
        ensures
            msg_texts(ms@) == mapped_all(self.mapper, line_views(lines@)),
    {
        let mut out: Vec<Msg> = Vec::new();
        proof {
            assert(line_views(lines@).skip(0) =~= line_views(lines@));
            assert(msg_texts(out@) =~= Seq::<Seq<char>>::empty());
        }
        self.poll_from(lines, 0, &mut out);
        out
    }

    /// Maps and flattens the lines from position `i` on.
    fn poll_from(&self, lines: &Vec<String>, i: usize, out: &mut Vec<Msg>)
        requires
            i <= lines@.len(),
        ensures
            msg_texts(final(out)@) == msg_texts(old(out)@) + mapped_all(
                self.mapper,
                line_views(lines@).skip(i as int),
            ),
        decreases lines@.len() - i,
    {
        let ghost ls = line_views(lines@).skip(i as int);
        if i == lines.len() {
            proof {
                assert(msg_texts(out@) =~= msg_texts(out@) + mapped_all(self.mapper, ls));
            }
            return ;
        }
        proof {
            assert(ls[0] == lines@[i as int]@);
            assert(ls.drop_first() =~= line_views(lines@).skip(i as int + 1));
        }
        let ghost out0 = msg_texts(out@);
        let mut ms = self.map_line(&lines[i]);
        let ghost head = msg_texts(ms@);
        out.append(&mut ms);
        proof {
            assert(msg_texts(out@) =~= out0 + head);
        }
        self.poll_from(lines, i + 1, out);
        proof {
            assert(out0 + head + mapped_all(self.mapper, ls.drop_first()) =~= out0 + mapped_all(
                self.mapper,
                ls,
            ));
        }
    }
}

} // verus!
