use vstd::prelude::*;
use std::marker::PhantomData;
use crate::block::Block;
use crate::block_number::BlockNumber;
use crate::error::{Error, ProviderError};
use crate::request_id::{RequestIdAllocator, issues};
use crate::transport::{HttpReply, settle, settled, method_call_body, method_call_body_spec, block_params, block_params_spec};

verus! {

/// The method that fetches a block by number or tag.
pub open spec fn get_block_by_number_method() -> Seq<char> {
    "klay_getBlockByNumber"@
}

/// Delivers request bodies to a node. The HTTP binding lives with the
/// application; tests plug in a fake.
pub trait Provider {
    /// Sends one JSON-RPC request body and reports what came back, with the
    /// result already decoded as an optional block (or why that failed).
    fn send(&mut self, body: String) -> HttpReply<Result<Option<Block>, String>>;
}

/// The result of a block request, given what the endpoint did: a result that
/// could not be decoded is a `Decoder` error; everything else is as `settle` says.
pub open spec fn block_settled(
    expected_id: u64,
    reply: HttpReply<Result<Option<Block>, String>>,
    r: Result<Option<Block>, Error>,
) -> bool {
    exists|s: Result<Result<Option<Block>, String>, Error>| #[trigger] settled(expected_id, reply, s) && match s {
        Ok(Ok(b)) => r == Ok::<Option<Block>, Error>(b),
        Ok(Err(m)) => r == Err::<Option<Block>, Error>(Error::Decoder(m)),
        Err(e) => r == Err::<Option<Block>, Error>(e),
    }
}

pub fn finish_block_request(expected_id: u64, reply: HttpReply<Result<Option<Block>, String>>) -> (r: Result<Option<Block>, Error>)
    ensures
        block_settled(expected_id, reply, r),
{
    let ghost g = reply;
    let s = settle(expected_id, reply);
    assert(settled(expected_id, g, s));
    match s {
        Ok(Ok(b)) => Ok(b),
        Ok(Err(m)) => Err(Error::Decoder(m)),
        Err(e) => Err(e),
    }
}

/// The block-fetching facade over one provider, with the provider's own id sequence.
pub struct Klay<T> {
    provider: T,
    ids: RequestIdAllocator,
    /// Every request body handed to the provider, oldest first.
    sent: Ghost<Seq<Seq<char>>>,
}

impl<T: Provider> Klay<T> {
    pub closed spec fn ids(&self) -> RequestIdAllocator {
        self.ids
    }

    pub closed spec fn provider(&self) -> T {
        self.provider
    }

    /// The request bodies handed to the provider so far, oldest first.
    pub closed spec fn sent(&self) -> Seq<Seq<char>> {
        self.sent@
    }

    /// A facade over `provider`, which has sent nothing yet through it.
    pub fn new(provider: T) -> (r: Self)
        ensures
            r.provider() == provider,
            r.ids().issued() == 0,
            r.sent() == Seq::<Seq<char>>::empty(),
    {
        Klay { provider, ids: RequestIdAllocator::new(), sent: Ghost(Seq::empty()) }
    }

    /// The body of the block request that carries `id`.
    pub open spec fn block_request_body(id: u64, block_number: BlockNumber) -> Seq<char> {
        method_call_body_spec(id as nat, get_block_by_number_method(), block_params_spec(block_number, false))
    }

    /// The next request for `block_number`: its id and its JSON-RPC body,
    /// which asks for the block without transaction bodies.
    pub fn prepare_block_request(&mut self, block_number: BlockNumber) -> (r: Option<(u64, String)>)
        ensures
            old(self).ids().issued() < u64::MAX ==> (r matches Some((id, body)) && issues(old(self).ids(), final(self).ids(), id)
                && body@ == Self::block_request_body(id, block_number)),
            old(self).ids().issued() >= u64::MAX ==> r is None && final(self).ids().issued() == old(self).ids().issued(),
            final(self).provider() == old(self).provider(),
            final(self).sent() == old(self).sent(),
    {
        let id = match self.ids.next() {
            Some(id) => id,
            None => return None,
        };
        let params = block_params(block_number, false);
        proof {
            reveal_strlit("klay_getBlockByNumber");
        }
        let body = method_call_body(id, "klay_getBlockByNumber", params.as_str());
        Some((id, body))
    }

    /// Fetches a block: the request that `prepare_block_request` builds,
    /// with a fresh id, goes to the provider once; whatever the provider
    /// reports is settled against that id as `finish_block_request` says.
    /// `Ok(None)` is a node that has no such block.
    pub fn get_block_by_number(&mut self, block_number: BlockNumber) -> (r: Result<Option<Block>, Error>)
        ensures
            old(self).ids().issued() < u64::MAX ==> final(self).ids().issued() == old(self).ids().issued() + 1,
            old(self).ids().issued() < u64::MAX ==> final(self).sent() == old(self).sent().push(
                Self::block_request_body(old(self).ids().issued() as u64, block_number)),
            old(self).ids().issued() >= u64::MAX ==> final(self).sent() == old(self).sent()
                && final(self).ids().issued() == old(self).ids().issued(),
            old(self).ids().issued() < u64::MAX ==> exists|reply: HttpReply<Result<Option<Block>, String>>|
                #[trigger] block_settled(old(self).ids().issued() as u64, reply, r),
            old(self).ids().issued() >= u64::MAX ==> (r matches Err(Error::Provider(ProviderError::Message(_)))),
    {
        match self.prepare_block_request(block_number) {
            None => Err(Error::Provider(ProviderError::Message(String::from_str("request ids are exhausted")))),
            Some((id, body)) => {
                proof {
                    self.sent@ = self.sent@.push(body@);
                }
                let reply = self.provider.send(body);
                let ghost sent = reply;
                let r = finish_block_request(id, reply);
                assert(block_settled(old(self).ids().issued() as u64, sent, r));
                r
            },
        }
    }
}

/// A provider together with the one id sequence that every request sent
/// through it draws from.
pub struct Client<T> {
    provider: T,
    ids: RequestIdAllocator,
}

impl<T: Provider> Client<T> {
    pub closed spec fn provider(&self) -> T {
        self.provider
    }

    pub closed spec fn ids(&self) -> RequestIdAllocator {
        self.ids
    }

    pub fn new(provider: T) -> (r: Self)
        ensures
            r.provider() == provider,
            r.ids().issued() == 0,
    {
        Client { provider, ids: RequestIdAllocator::new() }
    }

    /// The block-fetching facade over this client's provider. It takes the
    /// client's id sequence over, so its ids continue above every id that
    /// was issued through the client.
    pub fn klay(self) -> (r: Klay<T>)
        ensures
            r.provider() == self.provider(),
            r.ids() == self.ids(),
            r.sent() == Seq::<Seq<char>>::empty(),
    {
        Klay { provider: self.provider, ids: self.ids, sent: Ghost(Seq::empty()) }
    }
}

/// Holds a pending call's `store`; `T` names the type its result is meant to
/// be read as. It decodes nothing itself.
pub struct CallFuture<T, F> {
    pub store: F,
    pub marker: PhantomData<T>,
}

impl<T, F> CallFuture<T, F> {
    pub fn new(store: F) -> (r: Self)
        ensures
            r.store == store,
    {
        CallFuture { store, marker: PhantomData }
    }
}

} // verus!
