use crate::store::KvMap;
use crate::types::Origin;
use vstd::prelude::*;

verus! {

/// A capped membership token collection: its supply cap, the tick at
/// which it was created, and free-form metadata.
#[derive(Clone, Debug)]
pub struct Collection {
    pub total_supply: u32,
    pub created_at: u64,
    pub metadata: Vec<u8>,
}

/// A membership token: its mint-sequence id and its owner.
#[derive(Clone, Copy, PartialEq, Eq, Structural, Debug)]
pub struct Token {
    pub id: u32,
    pub owner: u64,
}

/// Everything the ledger holds for one collection: the collection record,
/// the live token count, the mint-sequence counter (which never decreases,
/// even across burns), and the tokens keyed by owner account — at most one
/// token per account per collection.
#[derive(Debug)]
pub struct CollectionEntry {
    pub collection: Collection,
    pub active: u32,
    pub minted: u32,
    pub tokens: KvMap<Token>,
}

/// Notifications the ledger emits; the host delivers them and never
/// hands them back.
#[derive(Clone, Copy, PartialEq, Eq, Structural, Debug)]
pub enum Event {
    CollectionCreated(u32),
    NFTMinted(u32, u32, u64),
    NFTBurned(u32, u32, u64),
}

/// Why a ledger operation was refused. `TokenExists`, `NotTheOwner` and
/// `NullValue` are reserved kinds that no operation currently returns.
#[derive(Clone, Copy, PartialEq, Eq, Structural, Debug)]
pub enum Error {
    CollectionExists,
    CollectionDoesNotExist,
    TokenExists,
    NotTheOwner,
    OneAccountOneToken,
    TokenMaxSupplyReached,
    TokenDoesNotExist,
    NullValue,
    BadOrigin,
    ArithmeticOverflow,
}

/// What the ledger guarantees of every collection it holds.
pub open spec fn entry_wf(e: CollectionEntry) -> bool {
    &&& e.tokens.wf()
    &&& e.active as nat == e.tokens.spec_len()
    &&& e.active <= e.collection.total_supply
    &&& forall|w: u64| #[trigger] e.tokens@.contains_key(w) ==> e.tokens@[w].owner == w
}

/// The membership token ledger: collections keyed by their id, and a
/// running count of how many collections were ever created.
pub struct Pallet {
    pub total_collections: u32,
    pub collections: KvMap<CollectionEntry>,
    pub events: Vec<Event>,
}

impl Pallet {
    pub open spec fn wf(self) -> bool {
        &&& self.collections.wf()
        &&& forall|c: u64| #[trigger]
            self.collections@.contains_key(c) ==> entry_wf(self.collections@[c])
    }

    pub fn new() -> (r: Self)
        ensures
            r.wf(),
            r.total_collections == 0,
            r.collections@ == Map::<u64, CollectionEntry>::empty(),
            r.events@ == Seq::<Event>::empty(),
    {
        Pallet { total_collections: 0, collections: KvMap::new(), events: Vec::new() }
    }

    /// Success condition of `create_collection`.
    pub open spec fn create_collection_ok(self, origin: Origin, uid: u32) -> bool {
        &&& origin == Origin::Root
        &&& !self.collections@.contains_key(uid as u64)
        &&& self.total_collections < u32::MAX
    }

    /// The error `create_collection` returns when it fails; meaningful
    /// only when `create_collection_ok` does not hold.
    pub open spec fn create_collection_err(self, origin: Origin, uid: u32) -> Error {
        if origin != Origin::Root {
            Error::BadOrigin
        } else if self.collections@.contains_key(uid as u64) {
            Error::CollectionExists
        } else {
            Error::ArithmeticOverflow
        }
    }

    /// State change of a successful `create_collection`.
    pub open spec fn create_collection_post(
        pre: Pallet,
        post: Pallet,
        uid: u32,
        total_supply: u32,
        metadata: Seq<u8>,
        now: u64,
    ) -> bool {
        let cid = uid as u64;
        let e = post.collections@[cid];
        &&& post.collections@.contains_key(cid)
        &&& e.collection.total_supply == total_supply
        &&& e.collection.created_at == now
        &&& e.collection.metadata@ == metadata
        &&& e.active == 0
        &&& e.minted == 0
        &&& e.tokens@ == Map::<u64, Token>::empty()
        &&& post.collections@.remove(cid) == pre.collections@.remove(cid)
        &&& post.total_collections == pre.total_collections + 1
        &&& post.events@ == pre.events@.push(Event::CollectionCreated(uid))
    }

    /// Creates the collection `uid` with the given supply cap, stamped
    /// with the current tick. Privileged-caller only; fails if the id is
    /// already taken or the collection counter would wrap.
    pub fn create_collection(
        &mut self,
        origin: Origin,
        uid: u32,
        total_supply: u32,
        metadata: Vec<u8>,
        now: u64,
    ) -> (r: Result<(), Error>)
        requires
            old(self).wf(),
        ensures
            final(self).wf(),
            match r {
                Ok(_) => old(self).create_collection_ok(origin, uid)
                    && Pallet::create_collection_post(
                    *old(self),
                    *final(self),
                    uid,
                    total_supply,
                    metadata@,
                    now,
                ),
                Err(e) => !old(self).create_collection_ok(origin, uid) && e == old(
                    self,
                ).create_collection_err(origin, uid) && *final(self) == *old(self),
            },
    {
        if origin != Origin::Root {
            return Err(Error::BadOrigin);
        }
        let cid = uid as u64;
        if self.collections.contains_key(cid) {
            return Err(Error::CollectionExists);
        }
        if self.total_collections == u32::MAX {
            return Err(Error::ArithmeticOverflow);
        }
        let entry = CollectionEntry {
            collection: Collection { total_supply, created_at: now, metadata },
            active: 0,
            minted: 0,
            tokens: KvMap::new(),
        };
        let ghost entry_g = entry;
        self.collections.insert(cid, entry);
        self.total_collections = self.total_collections + 1;
        self.events.push(Event::CollectionCreated(uid));
        proof {
            assert(self.collections@.remove(cid) =~= old(self).collections@.remove(cid));
            assert forall|c: u64| #[trigger]
                self.collections@.contains_key(c) implies entry_wf(self.collections@[c]) by {
                if c != cid {
                    assert(old(self).collections@.contains_key(c));
                }
            }
        }
        Ok(())
    }

    /// Success condition of `mint`.
    pub open spec fn mint_ok(self, origin: Origin, collection_id: u32, who: u64) -> bool {
        let cid = collection_id as u64;
        &&& origin == Origin::Root
        &&& self.collections@.contains_key(cid)
        &&& self.collections@[cid].active < self.collections@[cid].collection.total_supply
        &&& !self.collections@[cid].tokens@.contains_key(who)
        &&& self.collections@[cid].minted < u32::MAX
    }

    /// The error `mint` returns when it fails; meaningful only when
    /// `mint_ok` does not hold.
    pub open spec fn mint_err(self, origin: Origin, collection_id: u32, who: u64) -> Error {
        let cid = collection_id as u64;
        if origin != Origin::Root {
            Error::BadOrigin
        } else if !self.collections@.contains_key(cid) {
            Error::CollectionDoesNotExist
        } else if self.collections@[cid].active
            >= self.collections@[cid].collection.total_supply {
            Error::TokenMaxSupplyReached
        } else if self.collections@[cid].tokens@.contains_key(who) {
            Error::OneAccountOneToken
        } else {
            Error::ArithmeticOverflow
        }
    }

    /// State change of a successful `mint`: the owner's new token carries
    /// the next mint-sequence id, and the live count grows by one.
    pub open spec fn mint_post(pre: Pallet, post: Pallet, collection_id: u32, who: u64) -> bool {
        let cid = collection_id as u64;
        let e0 = pre.collections@[cid];
        let e1 = post.collections@[cid];
        let uid = (e0.minted + 1) as u32;
        &&& post.collections@.contains_key(cid)
        &&& e1.collection == e0.collection
        &&& e1.minted == e0.minted + 1
        &&& e1.active == e0.active + 1
        &&& e1.tokens@ == e0.tokens@.insert(who, Token { id: uid, owner: who })
        &&& post.collections@.remove(cid) == pre.collections@.remove(cid)
        &&& post.total_collections == pre.total_collections
        &&& post.events@ == pre.events@.push(Event::NFTMinted(collection_id, uid, who))
    }

    /// Mints a membership token for `who` in the given collection.
    /// Privileged-caller only; fails if the collection is absent, its
    /// supply cap is reached, `who` already holds a token in it, or the
    /// mint-sequence counter would wrap.
    pub fn mint(&mut self, origin: Origin, collection_id: u32, who: u64) -> (r: Result<
        (),
        Error,
    >)
        requires
            old(self).wf(),
        ensures
            final(self).wf(),
            match r {
                Ok(_) => old(self).mint_ok(origin, collection_id, who) && Pallet::mint_post(
                    *old(self),
                    *final(self),
                    collection_id,
                    who,
                ),
                Err(e) => !old(self).mint_ok(origin, collection_id, who) && e == old(
                    self,
                ).mint_err(origin, collection_id, who) && *final(self) == *old(self),
            },
    {
        if origin != Origin::Root {
            return Err(Error::BadOrigin);
        }
        let cid = collection_id as u64;
        match self.collections.get(cid) {
            None => {
                return Err(Error::CollectionDoesNotExist);
            },
            Some(entry) => {
                if entry.active >= entry.collection.total_supply {
                    return Err(Error::TokenMaxSupplyReached);
                }
                if entry.tokens.contains_key(who) {
                    return Err(Error::OneAccountOneToken);
                }
                if entry.minted == u32::MAX {
                    return Err(Error::ArithmeticOverflow);
                }
            },
        }
        let mut entry = match self.collections.remove(cid) {
            Some(e) => e,
            None => {
                proof {
                    assert(false);
                }
                return Err(Error::NullValue);
            },
        };
        let uid = entry.minted + 1;
        entry.tokens.insert(who, Token { id: uid, owner: who });
        entry.active = entry.active + 1;
        entry.minted = uid;
        let ghost entry_g = entry;
        self.collections.insert(cid, entry);
        self.events.push(Event::NFTMinted(collection_id, uid, who));
        proof {
            assert(self.collections@.remove(cid) =~= old(self).collections@.remove(cid));
            assert forall|c: u64| #[trigger]
                self.collections@.contains_key(c) implies entry_wf(self.collections@[c]) by {
                if c != cid {
                    assert(old(self).collections@.contains_key(c));
                } else {
                    assert(self.collections@[c] == entry_g);
                }
            }
        }
        Ok(())
    }

    /// Success condition of `burn`: the caller is a signed account that
    /// holds a token in the collection.
    pub open spec fn burn_ok(self, origin: Origin, collection_id: u32) -> bool {
        let cid = collection_id as u64;
        match origin {
            Origin::Root => false,
            Origin::Signed(who) => self.collections@.contains_key(cid)
                && self.collections@[cid].tokens@.contains_key(who),
        }
    }

    /// The error `burn` returns when it fails; meaningful only when
    /// `burn_ok` does not hold.
    pub open spec fn burn_err(self, origin: Origin, collection_id: u32) -> Error {
        match origin {
            Origin::Root => Error::BadOrigin,
            Origin::Signed(_) => Error::TokenDoesNotExist,
        }
    }

    /// State change of a successful `burn` by account `who`: the token
    /// record goes away and the live count shrinks by one, while the
    /// mint-sequence counter keeps its value.
    pub open spec fn burn_post(pre: Pallet, post: Pallet, collection_id: u32, who: u64) -> bool {
        let cid = collection_id as u64;
        let e0 = pre.collections@[cid];
        let e1 = post.collections@[cid];
        &&& post.collections@.contains_key(cid)
        &&& e1.collection == e0.collection
        &&& e1.minted == e0.minted
        &&& e1.active == e0.active - 1
        &&& e1.tokens@ == e0.tokens@.remove(who)
        &&& post.collections@.remove(cid) == pre.collections@.remove(cid)
        &&& post.total_collections == pre.total_collections
        &&& post.events@ == pre.events@.push(
            Event::NFTBurned(collection_id, e0.tokens@[who].id, who),
        )
    }

    /// Burns the caller's token in the given collection. The caller is
    /// authenticated, not privileged; fails if it holds no token there.
    pub fn burn(&mut self, origin: Origin, collection_id: u32) -> (r: Result<(), Error>)
        requires
            old(self).wf(),
        ensures
            final(self).wf(),
            match r {
                Ok(_) => old(self).burn_ok(origin, collection_id) && (match origin {
                    Origin::Signed(who) => Pallet::burn_post(
                        *old(self),
                        *final(self),
                        collection_id,
                        who,
                    ),
                    Origin::Root => false,
                }),
                Err(e) => !old(self).burn_ok(origin, collection_id) && e == old(self).burn_err(
                    origin,
                    collection_id,
                ) && *final(self) == *old(self),
            },
    {
        let who = match origin {
            Origin::Signed(w) => w,
            Origin::Root => {
                return Err(Error::BadOrigin);
            },
        };
        let cid = collection_id as u64;
        let holds = match self.collections.get(cid) {
            Some(entry) => entry.tokens.contains_key(who),
            None => false,
        };
        if !holds {
            return Err(Error::TokenDoesNotExist);
        }
        let mut entry = match self.collections.remove(cid) {
            Some(e) => e,
            None => {
                proof {
                    assert(false);
                }
                return Err(Error::NullValue);
            },
        };
        let token = match entry.tokens.remove(who) {
            Some(t) => t,
            None => {
                proof {
                    assert(false);
                }
                return Err(Error::NullValue);
            },
        };
        entry.active = entry.active - 1;
        let ghost entry_g = entry;
        self.collections.insert(cid, entry);
        self.events.push(Event::NFTBurned(collection_id, token.id, who));
        proof {
            assert(self.collections@.remove(cid) =~= old(self).collections@.remove(cid));
            assert forall|c: u64| #[trigger]
                self.collections@.contains_key(c) implies entry_wf(self.collections@[c]) by {
                if c != cid {
                    assert(old(self).collections@.contains_key(c));
                } else {
                    assert(self.collections@[c] == entry_g);
                }
            }
        }
        Ok(())
    }

    /// How many collections were ever created.
    pub fn get_total_collections(&self) -> (r: u32)
        ensures
            r == self.total_collections,
    {
        self.total_collections
    }

    /// The collection record under `uid`, if any.
    pub fn get_collection(&self, uid: u32) -> (r: Option<&Collection>)
        requires
            self.wf(),
        ensures
            match r {
                Some(c) => self.collections@.contains_key(uid as u64) && *c
                    == self.collections@[uid as u64].collection,
                None => !self.collections@.contains_key(uid as u64),
            },
    {
        match self.collections.get(uid as u64) {
            Some(entry) => Some(&entry.collection),
            None => None,
        }
    }

    /// The live token count of a collection; zero for an absent id.
    pub fn get_active_tokens(&self, collection_id: u32) -> (r: u32)
        requires
            self.wf(),
        ensures
            r == if self.collections@.contains_key(collection_id as u64) {
                self.collections@[collection_id as u64].active
            } else {
                0u32
            },
    {
        match self.collections.get(collection_id as u64) {
            Some(entry) => entry.active,
            None => 0,
        }
    }

    /// The mint-sequence counter of a collection; zero for an absent id.
    pub fn get_total_tokens(&self, collection_id: u32) -> (r: u32)
        requires
            self.wf(),
        ensures
            r == if self.collections@.contains_key(collection_id as u64) {
                self.collections@[collection_id as u64].minted
            } else {
                0u32
            },
    {
        match self.collections.get(collection_id as u64) {
            Some(entry) => entry.minted,
            None => 0,
        }
    }

    /// The token `who` holds in the given collection, if any.
    pub fn get_token(&self, who: u64, collection_id: u32) -> (r: Option<&Token>)
        requires
            self.wf(),
        ensures
            match r {
                Some(t) => self.collections@.contains_key(collection_id as u64)
                    && self.collections@[collection_id as u64].tokens@.contains_key(who) && *t
                    == self.collections@[collection_id as u64].tokens@[who],
                None => !self.collections@.contains_key(collection_id as u64)
                    || !self.collections@[collection_id as u64].tokens@.contains_key(who),
            },
    {
        match self.collections.get(collection_id as u64) {
            Some(entry) => entry.tokens.get(who),
            None => None,
        }
    }
}


/// Capacity boundary: under the ledger's invariant the live count never
/// exceeds the cap, so with the authority calling, the collection
/// present, the owner token-free and counter room left, a mint is
/// accepted exactly while the live count is strictly below the cap, and
/// refused as capacity-reached exactly when the count has reached it.
pub proof fn lemma_mint_capacity_boundary(s: Pallet, collection_id: u32, who: u64)
    requires
        s.wf(),
        s.collections@.contains_key(collection_id as u64),
        !s.collections@[collection_id as u64].tokens@.contains_key(who),
        s.collections@[collection_id as u64].minted < u32::MAX,
    ensures
        s.mint_ok(Origin::Root, collection_id, who) <==> s.collections@[collection_id as u64].active
            < s.collections@[collection_id as u64].collection.total_supply,
        !s.mint_ok(Origin::Root, collection_id, who) ==> {
            &&& s.collections@[collection_id as u64].active == s.collections@[collection_id
                as u64].collection.total_supply
            &&& s.mint_err(Origin::Root, collection_id, who) == Error::TokenMaxSupplyReached
        },
{
    assert(entry_wf(s.collections@[collection_id as u64]));
}

} // verus!
