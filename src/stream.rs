use vstd::prelude::*;

use crate::error::Error;

verus! {

/// The decoded answer of a streaming call: every item was decoded before the
/// first is handed out, and the items then come out once each, in order, until
/// none is left. A finished stream stays finished.
#[derive(Debug)]
pub struct ResponseStream<T> {
    items: Vec<Result<T, Error>>,
}

impl<T> View for ResponseStream<T> {
    type V = Seq<Result<T, Error>>;

    /// The items that are still to come, in order.
    closed spec fn view(&self) -> Seq<Result<T, Error>> {
        self.items@
    }
}

impl<T> ResponseStream<T> {
    /// The stream of a body that was decoded as a whole: each decoded
    /// response becomes one success, in the body's order; a body that did not
    /// decode as an array of responses becomes one `JsonError` and nothing else.
    pub fn from_parsed(parsed: Result<Vec<T>, String>) -> (r: ResponseStream<T>)
        ensures
            parsed matches Ok(v) ==> (r@.len() == v@.len() && forall|i: int|
                0 <= i < v@.len() ==> r@[i] == Ok::<T, Error>(v@[i])),
            parsed matches Err(m) ==> (r@.len() == 1 && (r@[0] matches Err(Error::JsonError(e))
                && e@ == m@)),
    {
        match parsed {
            Ok(mut v) => {
                let ghost v0 = v@;
                let mut items: Vec<Result<T, Error>> = Vec::new();
                while v.len() > 0
                    invariant
                        items@.len() + v@.len() == v0.len(),
                        v@ == v0.subrange(items@.len() as int, v0.len() as int),
                        forall|i: int| 0 <= i < items@.len() ==> items@[i] == Ok::<T, Error>(v0[i]),
                    decreases v@.len(),
                {
                    let x = v.remove(0);
                    items.push(Ok(x));
                }
                ResponseStream { items }
            },
            Err(m) => ResponseStream { items: vec![Err(Error::JsonError(m))] },
        }
    }

    /// The next item, or `None` once every item has come out.
    pub fn next(&mut self) -> (r: Option<Result<T, Error>>)
        ensures
            old(self)@.len() == 0 ==> r is None && final(self)@ == old(self)@,
            old(self)@.len() > 0 ==> r == Some(old(self)@[0]) && final(self)@ == old(self)@.drop_first(),
    {
        if self.items.len() == 0 {
            None
        } else {
            Some(self.items.remove(0))
        }
    }

    /// Whether every item has come out.
    pub fn is_finished(&self) -> (r: bool)
        ensures
            r == (self@.len() == 0),
    {
        self.items.len() == 0
    }

    /// Takes every remaining item, in order, by calling `next` until it
    /// reports the end; the stream is then finished for good.
    pub fn drain(&mut self) -> (r: Vec<Result<T, Error>>)
        ensures
            r@ == old(self)@,
            final(self)@.len() == 0,
    {
        let mut out: Vec<Result<T, Error>> = Vec::new();
        let ghost all = self@;
        loop
            invariant
                all == old(self)@,
                all == out@ + self@,
            decreases self@.len(),
        {
            match self.next() {
                Some(item) => {
                    out.push(item);
                    proof {
                        assert(all =~= out@ + self@);
                    }
                },
                None => {
                    proof {
                        assert(out@ =~= all);
                    }
                    return out;
                },
            }
        }
    }
}

} // verus!
