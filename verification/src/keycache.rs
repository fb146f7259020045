//! The cache of the identity provider's signing keys. The keys are replaced
//! as a whole, never one by one, and are trusted for ten minutes: a lookup
//! in an older set, or for a key that the set does not hold, asks for a
//! refresh first.

use crate::errors::{AppError, AppErrorView};
use crate::text::same_text;
use vstd::prelude::*;
use vstd::string::*;

verus! {

/// The age in seconds above which the keys are refreshed.
pub const STALE_AFTER_SECONDS: u64 = 600;

/// A public signing key of the identity provider.
#[derive(Clone, Debug, PartialEq, Eq)]
pub struct SigningKey {
    pub key_id: String,
    /// The modulus, in base 64.
    pub modulus: String,
    /// The exponent, in base 64.
    pub exponent: String,
}

/// The mathematical value of a [`SigningKey`].
pub struct SigningKeyView {
    pub key_id: Seq<char>,
    pub modulus: Seq<char>,
    pub exponent: Seq<char>,
}

impl View for SigningKey {
    type V = SigningKeyView;

    open spec fn view(&self) -> SigningKeyView {
        SigningKeyView { key_id: self.key_id@, modulus: self.modulus@, exponent: self.exponent@ }
    }
}

impl SigningKey {
    /// A copy of the key.
    pub fn duplicate(&self) -> (r: SigningKey)
        ensures
            r@ == self@,
    {
        SigningKey {
            key_id: self.key_id.clone(),
            modulus: self.modulus.clone(),
            exponent: self.exponent.clone(),
        }
    }
}

/// The values of a list of keys.
pub open spec fn key_views(keys: Seq<SigningKey>) -> Seq<SigningKeyView> {
    Seq::new(keys.len(), |i: int| keys[i]@)
}

/// The first of `keys` with the identifier `key_id`.
pub open spec fn find_key(keys: Seq<SigningKeyView>, key_id: Seq<char>) -> Option<SigningKeyView>
    decreases keys.len(),
{
    if keys.len() == 0 {
        None
    } else if keys[0].key_id == key_id {
        Some(keys[0])
    } else {
        find_key(keys.drop_first(), key_id)
    }
}

/// The mathematical value of a [`CachedKeySet`].
pub struct KeySetView {
    pub keys: Seq<SigningKeyView>,
    /// When the keys were fetched, in seconds; none before the first fetch.
    pub last_refreshed: Option<u64>,
}

impl KeySetView {
    /// Whether the keys are too old at the time `now`, or were never
    /// fetched.
    pub open spec fn is_stale(self, now: u64) -> bool {
        match self.last_refreshed {
            None => true,
            Some(at) => now - at > STALE_AFTER_SECONDS,
        }
    }

    /// Whether a lookup of `key_id` at the time `now` refreshes the keys
    /// first.
    pub open spec fn needs_refresh(self, key_id: Seq<char>, now: u64) -> bool {
        self.is_stale(now) || find_key(self.keys, key_id) is None
    }

    /// The set after a fetch that ended at the time `now`: the fetched keys
    /// in place of all the old ones, or the old set where the fetch failed.
    pub open spec fn refreshed(self, outcome: Result<Seq<SigningKeyView>, Seq<char>>, now: u64) -> KeySetView {
        match outcome {
            Ok(keys) => KeySetView { keys, last_refreshed: Some(now) },
            Err(_) => self,
        }
    }

    /// The key with the identifier `key_id`, or that it is unknown.
    pub open spec fn resolve(self, key_id: Seq<char>) -> Result<SigningKeyView, AppErrorView> {
        match find_key(self.keys, key_id) {
            Some(key) => Ok(key),
            None => Err(AppErrorView::KeyNotFoundInCache(key_id)),
        }
    }
}

/// The mathematical value of the outcome of a fetch.
pub open spec fn fetch_model(outcome: Result<Vec<SigningKey>, String>) -> Result<
    Seq<SigningKeyView>,
    Seq<char>,
> {
    match outcome {
        Ok(keys) => Ok(key_views(keys@)),
        Err(e) => Err(e@),
    }
}

/// What a lookup finds.
#[derive(Debug, PartialEq, Eq)]
pub enum Lookup {
    /// The key, from a set that is fresh.
    Found(SigningKey),
    /// The keys are to be fetched before the key is resolved.
    Refresh,
}

/// The keys of the identity provider as last fetched.
#[derive(Debug)]
pub struct CachedKeySet {
    keys: Vec<SigningKey>,
    last_refreshed: Option<u64>,
}

impl View for CachedKeySet {
    type V = KeySetView;

    closed spec fn view(&self) -> KeySetView {
        KeySetView { keys: key_views(self.keys@), last_refreshed: self.last_refreshed }
    }
}

/// Skipping keys with other identifiers does not change the key found.
proof fn lemma_find_key_skip(keys: Seq<SigningKeyView>, key_id: Seq<char>, n: int)
    requires
        0 <= n <= keys.len(),
        forall|j: int| 0 <= j < n ==> keys[j].key_id != key_id,
    ensures
        find_key(keys, key_id) == find_key(keys.skip(n), key_id),
    decreases n,
{
    if n == 0 {
        assert(keys.skip(0) =~= keys);
    } else {
        let rest = keys.drop_first();
        assert forall|j: int| 0 <= j < n - 1 implies rest[j].key_id != key_id by {
            assert(rest[j] == keys[j + 1]);
        }
        lemma_find_key_skip(rest, key_id, n - 1);
        assert(rest.skip(n - 1) =~= keys.skip(n));
    }
}

/// A key that is found has the identifier that was looked for, and is one
/// of the keys.
pub proof fn lemma_found_key_matches(keys: Seq<SigningKeyView>, key_id: Seq<char>)
    ensures
        find_key(keys, key_id) matches Some(key) ==> key.key_id == key_id && keys.contains(key),
        find_key(keys, key_id) is None <==> forall|i: int|
            0 <= i < keys.len() ==> keys[i].key_id != key_id,
    decreases keys.len(),
{
    if keys.len() > 0 {
        if keys[0].key_id == key_id {
            assert(keys.contains(keys[0]));
        } else {
            let rest = keys.drop_first();
            lemma_found_key_matches(rest, key_id);
            if find_key(rest, key_id) is Some {
                let key = find_key(rest, key_id)->0;
                let i = choose|i: int| 0 <= i < rest.len() && rest[i] == key;
                assert(keys[i + 1] == key);
            } else {
                assert forall|i: int| 0 <= i < keys.len() implies keys[i].key_id != key_id by {
                    if i > 0 {
                        assert(rest[i - 1] == keys[i]);
                    }
                }
            }
            if forall|i: int| 0 <= i < keys.len() ==> keys[i].key_id != key_id {
                assert forall|i: int| 0 <= i < rest.len() implies rest[i].key_id != key_id by {
                    assert(rest[i] == keys[i + 1]);
                }
            }
        }
    }
}

impl CachedKeySet {
    /// A set without keys, never fetched.
    pub fn new() -> (r: CachedKeySet)
        ensures
            r@.keys.len() == 0,
            r@.last_refreshed is None,
    {
        CachedKeySet { keys: Vec::new(), last_refreshed: None }
    }

    /// When the keys were fetched.
    pub fn last_refreshed(&self) -> (r: Option<u64>)
        ensures
            r == self@.last_refreshed,
    {
        self.last_refreshed
    }

    /// The number of keys.
    pub fn len(&self) -> (r: usize)
        ensures
            r == self@.keys.len(),
    {
        self.keys.len()
    }

    /// Whether the keys are older than ten minutes at the time `now`, or
    /// were never fetched.
    pub fn is_stale(&self, now: u64) -> (r: bool)
        ensures
            r == self@.is_stale(now),
    {
        match self.last_refreshed {
            None => true,
            Some(at) => now > at && now - at > STALE_AFTER_SECONDS,
        }
    }

    /// The key with the identifier `key_id`, whatever the age of the set.
    pub fn get_key(&self, key_id: &str) -> (r: Result<SigningKey, AppError>)
        ensures
            match self@.resolve(key_id@) {
                Ok(key) => r is Ok && r->Ok_0@ == key,
                Err(e) => r is Err && r->Err_0@ == e,
            },
    {
        let ghost views = key_views(self.keys@);
        let mut i: usize = 0;
        while i < self.keys.len()
            invariant
                i <= self.keys.len(),
                views == key_views(self.keys@),
                forall|j: int| 0 <= j < i ==> views[j].key_id != key_id@,
            decreases self.keys.len() - i,
        {
            if same_text(self.keys[i].key_id.as_str(), key_id) {
                proof {
                    lemma_find_key_skip(views, key_id@, i as int);
                    assert(views.skip(i as int)[0] == self.keys@[i as int]@);
                }
                return Ok(self.keys[i].duplicate());
            }
            assert(views[i as int].key_id != key_id@);
            i += 1;
        }
        proof {
            lemma_find_key_skip(views, key_id@, i as int);
            assert(views.skip(i as int).len() == 0);
        }
        Err(AppError::KeyNotFoundInCache(key_id.to_owned()))
    }

    /// Looks up a key at the time `now`. A key is found only in a fresh
    /// set: where the set is stale a refresh is asked for, also where it
    /// holds the key.
    pub fn lookup(&self, key_id: &str, now: u64) -> (r: Lookup)
        ensures
            self@.needs_refresh(key_id@, now) <==> r is Refresh,
            r matches Lookup::Found(key) ==> Some(key@) == find_key(self@.keys, key_id@),
    {
        if self.is_stale(now) {
            return Lookup::Refresh;
        }
        match self.get_key(key_id) {
            Ok(key) => Lookup::Found(key),
            Err(_) => Lookup::Refresh,
        }
    }

    /// Takes the outcome of a fetch that ended at the time `now`. Fetched
    /// keys replace all the old ones. After a failed fetch the old keys
    /// stay, with their age, and the failure is handed back.
    pub fn complete_refresh(&mut self, outcome: Result<Vec<SigningKey>, String>, now: u64) -> (r:
        Result<(), AppError>)
        ensures
            final(self)@ == old(self)@.refreshed(fetch_model(outcome), now),
            match outcome {
                Ok(_) => r is Ok,
                Err(e) => r == Err::<(), AppError>(AppError::KeyFetchFailed(e)),
            },
    {
        match outcome {
            Ok(keys) => {
                self.keys = keys;
                self.last_refreshed = Some(now);
                Ok(())
            },
            Err(e) => Err(AppError::KeyFetchFailed(e)),
        }
    }
}

/// What one caller after the other does to the set: each looks up the key
/// that it needs at its time and, where that asks for a refresh, fetches
/// `fetched` and puts it in place. A caller is the identifier of its key
/// and its time. The result is the number of fetches.
pub open spec fn fetches_of_callers(
    set: KeySetView,
    callers: Seq<(Seq<char>, u64)>,
    fetched: Seq<SigningKeyView>,
) -> nat
    decreases callers.len(),
{
    if callers.len() == 0 {
        0
    } else if set.needs_refresh(callers[0].0, callers[0].1) {
        1 + fetches_of_callers(
            set.refreshed(Ok(fetched), callers[0].1),
            callers.drop_first(),
            fetched,
        )
    } else {
        fetches_of_callers(set, callers.drop_first(), fetched)
    }
}

/// Callers that find a fresh set with their keys fetch nothing.
pub proof fn lemma_fresh_set_is_not_fetched(
    set: KeySetView,
    callers: Seq<(Seq<char>, u64)>,
    fetched: Seq<SigningKeyView>,
)
    requires
        set.last_refreshed is Some,
        forall|i: int| 0 <= i < callers.len() ==> find_key(set.keys, #[trigger] callers[i].0) is Some,
        forall|i: int|
            0 <= i < callers.len() ==> (#[trigger] callers[i]).1 - set.last_refreshed->0
                <= STALE_AFTER_SECONDS,
    ensures
        fetches_of_callers(set, callers, fetched) == 0,
    decreases callers.len(),
{
    if callers.len() > 0 {
        assert(find_key(set.keys, callers[0].0) is Some);
        assert(callers[0].1 - set.last_refreshed->0 <= STALE_AFTER_SECONDS);
        let rest = callers.drop_first();
        assert forall|i: int| 0 <= i < rest.len() implies find_key(
            set.keys,
            #[trigger] rest[i].0,
        ) is Some by {
            assert(rest[i] == callers[i + 1]);
        }
        assert forall|i: int| 0 <= i < rest.len() implies (#[trigger] rest[i]).1
            - set.last_refreshed->0 <= STALE_AFTER_SECONDS by {
            assert(rest[i] == callers[i + 1]);
        }
        lemma_fresh_set_is_not_fetched(set, rest, fetched);
    }
}

/// However many callers meet a set that was never fetched, each with a key
/// of its own, the keys are fetched once: by the first caller, for all of
/// them. This holds where the key of each caller is among those fetched and
/// all callers come within ten minutes of the first.
pub proof fn lemma_first_access_fetches_once(
    callers: Seq<(Seq<char>, u64)>,
    fetched: Seq<SigningKeyView>,
)
    requires
        callers.len() > 0,
        forall|i: int| 0 <= i < callers.len() ==> find_key(fetched, #[trigger] callers[i].0) is Some,
        forall|i: int|
            0 <= i < callers.len() ==> (#[trigger] callers[i]).1 - callers[0].1
                <= STALE_AFTER_SECONDS,
    ensures
        fetches_of_callers(
            KeySetView { keys: Seq::empty(), last_refreshed: None },
            callers,
            fetched,
        ) == 1,
{
    let empty = KeySetView { keys: Seq::empty(), last_refreshed: None };
    let filled = empty.refreshed(Ok(fetched), callers[0].1);
    let rest = callers.drop_first();
    assert forall|i: int| 0 <= i < rest.len() implies find_key(
        filled.keys,
        #[trigger] rest[i].0,
    ) is Some by {
        assert(rest[i] == callers[i + 1]);
    }
    assert forall|i: int| 0 <= i < rest.len() implies (#[trigger] rest[i]).1
        - filled.last_refreshed->0 <= STALE_AFTER_SECONDS by {
        assert(rest[i] == callers[i + 1]);
        assert(callers[i + 1].1 - callers[0].1 <= STALE_AFTER_SECONDS);
    }
    lemma_fresh_set_is_not_fetched(filled, rest, fetched);
}

/// A stale set is refreshed by the next lookup, also where it holds the
/// key.
pub proof fn lemma_stale_set_is_refreshed(set: KeySetView, key_id: Seq<char>, now: u64)
    requires
        set.last_refreshed matches Some(at) && now - at > STALE_AFTER_SECONDS,
    ensures
        set.needs_refresh(key_id, now),
{
}

} // verus!
