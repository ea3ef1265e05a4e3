//! The outbound adapter that renders typed messages back into terminated
//! wire lines, preserving submission order.

use vstd::prelude::*;

use crate::codec::{encoded, msg_texts, Msg, UciCodec};

verus! {

/// The wire form of a sequence of canonical message texts: each text
/// followed by the line terminator, in order.
pub open spec fn rendered(ts: Seq<Seq<char>>) -> Seq<char>
    decreases ts.len(),
{
    if ts.len() == 0 {
        Seq::<char>::empty()
    } else {
        encoded(ts[0]) + rendered(ts.drop_first())
    }
}

/// The outbound serializer: renders a batch of messages as terminated
/// lines. The sink writing this string writes each message's canonical text
/// exactly once, in submission order.
pub struct Serializer {}

impl Serializer {
    pub fn new() -> (s: Serializer) {
        Serializer {}
    }

    /// Renders the messages in order, one terminated line each.
    pub fn render(&self, ms: &Vec<Msg>) -> (s: String)
        ensures
            s@ == rendered(msg_texts(ms@)),
    {
        let codec = UciCodec::new();
        let mut s = String::new();
        let mut i: usize = 0;
        proof {
            assert(msg_texts(ms@).skip(0) =~= msg_texts(ms@));
        }
        while i < ms.len()
            invariant
                i <= ms@.len(),
                s@ + rendered(msg_texts(ms@).skip(i as int)) == rendered(msg_texts(ms@)),
            decreases ms@.len() - i,
        {
            let ghost ts = msg_texts(ms@).skip(i as int);
            proof {
                assert(ts[0] == ms@[i as int]@);
                assert(ts.drop_first() =~= msg_texts(ms@).skip(i as int + 1));
            }
            codec.encode(&ms[i], &mut s);
            i = i + 1;
        }
        proof {
            assert(msg_texts(ms@).skip(ms@.len() as int) =~= Seq::<Seq<char>>::empty());
            assert(s@ =~= s@ + rendered(msg_texts(ms@).skip(ms@.len() as int)));
        }
        s
    }
}

} // verus!
