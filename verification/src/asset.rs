//! Asset loading with pluggable failure policies.
//!
//! An [`AssetLoader`] binds a source key, an item type, an error type
//! and a [`AssetFailResponse`] policy into one capability: `try_load`
//! is the fallible primitive an asset kind supplies, `load` the
//! infallible operation derived from it.  [`Assets`] is the registry
//! that keeps loaded items and deduplicates loads by source key.

use std::io::Write;
use std::rc::Rc;
use vstd::prelude::*;

verus! {

use vstd::laws_eq::obeys_concrete_eq;

/// An asset: a value standing for a loaded resource.
///
/// An asset owns whatever native handles back it and must release
/// them exactly once, in its `Drop` implementation, when its last
/// owner goes away; no caller ever unloads it by hand.
pub trait Asset {

}

/// Indicates that the asset should be loaded immediately and persist
/// as long as the game is running.
pub trait StaticAsset: Asset {

}

/// A trait for converting fallible asset loading to infallible.
///
/// A policy turns the outcome of a load into an item a caller can use
/// unconditionally; it never hands the error on.
pub trait AssetFailResponse<Item, Error> {
    /// The outcomes the policy can turn into an item at all.  An
    /// outcome it does not accept has no item: on such an outcome the
    /// policy stops the program instead of returning.
    spec fn accepts(r: Result<Item, Error>) -> bool;

    /// How the produced item relates to the load outcome.
    spec fn resolves(r: Result<Item, Error>, item: Item) -> bool;

    /// Ensures a valid object is received, making load infallible.
    /// A successful load always passes through unchanged.
    fn ensure(r: Result<Item, Error>) -> (item: Item)
        requires
            Self::accepts(r),
        ensures
            Self::resolves(r, item),
            r matches Ok(v) ==> item == v,
    ;
}

/// Indicates that the game should panic if the asset fails to load.
pub struct MandatoryAsset {

}

impl<Item, Error: core::fmt::Debug> AssetFailResponse<Item, Error> for MandatoryAsset {
    /// Only a successful load yields an item; a failed one stops the
    /// program, so verified callers must rule it out.
    open spec fn accepts(r: Result<Item, Error>) -> bool {
        r is Ok
    }

    open spec fn resolves(r: Result<Item, Error>, item: Item) -> bool {
        match r {
            Ok(v) => item == v,
            Err(_) => false,
        }
    }

    fn ensure(r: Result<Item, Error>) -> (item: Item) {
        r.expect("mandatory asset failed to load")
    }
}

/// Relies on std's stderr: prints one warning line naming the load
/// error.  Pure diagnostics; nothing is promised of it.
#[verifier::external_body]
fn warn_load_error<E: core::fmt::Debug>(err: &E) {
    let _ = writeln!(std::io::stderr().lock(), "asset load error: {err:?}");
}

/// Indicates that the game should fall back to the asset type's
/// default value if the asset fails to load.
pub struct DefaultingAsset {

}

impl<Item: Default, Error: core::fmt::Debug> AssetFailResponse<Item, Error> for DefaultingAsset {
    /// Every outcome yields an item: a failure is replaced by the
    /// item type's default value.
    open spec fn accepts(r: Result<Item, Error>) -> bool {
        true
    }

    open spec fn resolves(r: Result<Item, Error>, item: Item) -> bool {
        match r {
            Ok(v) => item == v,
            Err(_) => call_ensures(<Item as Default>::default, (), item),
        }
    }

    fn ensure(r: Result<Item, Error>) -> (item: Item) {
        match r {
            Ok(v) => v,
            Err(e) => {
                warn_load_error(&e);
                Default::default()
            },
        }
    }
}

/// A compile-time binding of a source key, an item type, an error
/// type and a failure policy.
///
/// `try_load` is the only operation a new asset kind must implement;
/// `load` is derived from it and the bound [`AssetFailResponse`].
pub trait AssetLoader: Sized {
    /// Error type for if the asset fails to load.
    type LoadError: core::fmt::Debug;

    /// How the game should respond if the asset fails to load.
    type FailResponse: AssetFailResponse<Self::Item, Self::LoadError>;

    /// The argument passed to `load` and to the registry's retrieval
    /// operations.
    type Source;

    /// The type of asset this loader loads.
    type Item: Asset;

    /// The outcomes `try_load` may produce for a given source: the
    /// loader's own statement of its behaviour.
    spec fn may_load(src: Self::Source, r: Result<Self::Item, Self::LoadError>) -> bool;

    /// Defines how the asset is loaded.  On failure it must not have
    /// built a partial item: an item is either returned whole or not
    /// at all.
    fn try_load(src: Self::Source) -> (r: Result<Self::Item, Self::LoadError>)
        ensures
            Self::may_load(src, r),
    ;

    /// Loads the asset with built-in error handling.  Callable where
    /// the bound policy accepts every outcome the loader may produce
    /// for this source; with a [`MandatoryAsset`] policy that means
    /// the load provably cannot fail, since a failed mandatory load
    /// stops the program.
    fn load(src: Self::Source) -> (item: Self::Item)
        requires
            forall|r| Self::may_load(src, r) ==> Self::FailResponse::accepts(r),
        ensures
            exists|r|
                {
                    &&& #[trigger] Self::may_load(src, r)
                    &&& Self::FailResponse::resolves(r, item)
                    &&& (r matches Ok(v) ==> item == v)
                },
    {
        let ghost source = src;
        let r = Self::try_load(src);
        let ghost outcome = r;
        let item = Self::FailResponse::ensure(r);
        proof {
            assert(Self::may_load(source, outcome) && Self::FailResponse::resolves(outcome, item)
                && (outcome matches Ok(v) ==> item == v));
        }
        item
    }
}

/// No source key occurs twice in `s`.
pub open spec fn distinct_keys<K, V>(s: Seq<(K, V)>) -> bool {
    forall|i: int, j: int| #![trigger s[i], s[j]] 0 <= i < j < s.len() ==> s[i].0 != s[j].0
}

/// Relies on std's `Rc::clone`: the returned handle shares the very
/// allocation behind `rc`, so it stands for the same value.
#[verifier::external_body]
fn clone_handle<T>(rc: &Rc<T>) -> (r: Rc<T>)
    ensures
        r == *rc,
{
    Rc::clone(rc)
}

/// Collection of all game assets loaded through one loader.
///
/// Static assets are owned by the registry for its whole lifetime;
/// dynamic assets are shared by reference count, and the registry
/// keeps one owning handle per resident instance.  Both stores are
/// deduplicated by source key.
pub struct Assets<L: AssetLoader> {
    static_assets: Vec<(L::Source, L::Item)>,
    assets: Vec<(L::Source, Rc<L::Item>)>,
}

impl<L: AssetLoader> Assets<L> {
    /// The resident static assets with their keys, in load order.
    pub closed spec fn statics(self) -> Seq<(L::Source, L::Item)> {
        self.static_assets@
    }

    /// The resident shared dynamic assets with their keys, in load
    /// order.
    pub closed spec fn dynamics(self) -> Seq<(L::Source, Rc<L::Item>)> {
        self.assets@
    }

    /// Registry invariant: within one loader, at most one resident
    /// instance exists per distinct source key, in either store.
    pub open spec fn wf(self) -> bool {
        distinct_keys(self.statics()) && distinct_keys(self.dynamics())
    }

    /// Whether a static instance keyed by `src` is resident.
    pub open spec fn has_static(self, src: L::Source) -> bool {
        exists|i: int| 0 <= i < self.statics().len() && (#[trigger] self.statics()[i]).0 == src
    }

    /// The resident static instance keyed by `src`.
    pub open spec fn static_for(self, src: L::Source) -> L::Item {
        let i = choose|i: int|
            0 <= i < self.statics().len() && (#[trigger] self.statics()[i]).0 == src;
        self.statics()[i].1
    }

    /// Whether a shared dynamic instance keyed by `src` is resident.
    pub open spec fn has_dynamic(self, src: L::Source) -> bool {
        exists|i: int| 0 <= i < self.dynamics().len() && (#[trigger] self.dynamics()[i]).0 == src
    }

    /// The registry's own handle to the resident dynamic instance
    /// keyed by `src`.
    pub open spec fn dynamic_for(self, src: L::Source) -> Rc<L::Item> {
        let i = choose|i: int|
            0 <= i < self.dynamics().len() && (#[trigger] self.dynamics()[i]).0 == src;
        self.dynamics()[i].1
    }

    /// Creates an empty registry.
    pub fn new() -> (registry: Self)
        ensures
            registry.wf(),
            registry.statics().len() == 0,
            registry.dynamics().len() == 0,
    {
        Assets { static_assets: Vec::new(), assets: Vec::new() }
    }

    /// Index of the resident static instance keyed by `src`, if any.
    fn find_static(&self, src: &L::Source) -> (found: Option<usize>)
        where L::Source: PartialEq
        requires
            obeys_concrete_eq::<L::Source>(),
        ensures
            match found {
                Some(i) => 0 <= i < self.statics().len() && self.statics()[i as int].0 == *src,
                None => forall|j: int|
                    0 <= j < self.statics().len() ==> (#[trigger] self.statics()[j]).0 != *src,
            },
    {
        proof {
            reveal(obeys_concrete_eq);
        }
        let mut i: usize = 0;
        while i < self.static_assets.len()
            invariant
                obeys_concrete_eq::<L::Source>(),
                i <= self.static_assets@.len(),
                forall|j: int| 0 <= j < i ==> (#[trigger] self.static_assets@[j]).0 != *src,
            decreases self.static_assets@.len() - i,
        {
            proof {
                reveal(obeys_concrete_eq);
            }
            if self.static_assets[i].0.eq(src) {
                return Some(i);
            }
            i = i + 1;
        }
        None
    }

    /// Index of the resident dynamic instance keyed by `src`, if any.
    fn find_dynamic(&self, src: &L::Source) -> (found: Option<usize>)
        where L::Source: PartialEq
        requires
            obeys_concrete_eq::<L::Source>(),
        ensures
            match found {
                Some(i) => 0 <= i < self.dynamics().len() && self.dynamics()[i as int].0 == *src,
                None => forall|j: int|
                    0 <= j < self.dynamics().len() ==> (#[trigger] self.dynamics()[j]).0 != *src,
            },
    {
        proof {
            reveal(obeys_concrete_eq);
        }
        let mut i: usize = 0;
        while i < self.assets.len()
            invariant
                obeys_concrete_eq::<L::Source>(),
                i <= self.assets@.len(),
                forall|j: int| 0 <= j < i ==> (#[trigger] self.assets@[j]).0 != *src,
            decreases self.assets@.len() - i,
        {
            proof {
                reveal(obeys_concrete_eq);
            }
            if self.assets[i].0.eq(src) {
                return Some(i);
            }
            i = i + 1;
        }
        None
    }

    /// Gets the asset from the asset list or loads it immediately if
    /// it isn't there.
    ///
    /// The returned reference points at the registry's resident
    /// instance, which stays resident for the rest of the registry's
    /// lifetime: a later call with the same source finds it resident
    /// and never loads again.
    pub fn get_static(&mut self, src: L::Source) -> (item: &L::Item)
        where L::Source: PartialEq + Copy, L::Item: StaticAsset
        requires
            old(self).wf(),
            obeys_concrete_eq::<L::Source>(),
            !old(self).has_static(src) ==> forall|r|
                #[trigger] L::may_load(src, r) ==> L::FailResponse::accepts(r),
        ensures
            final(self).wf(),
            final(self).dynamics() == old(self).dynamics(),
            final(self).has_static(src),
            *item == final(self).static_for(src),
            old(self).has_static(src) ==> *final(self) == *old(self),
            !old(self).has_static(src) ==> {
                &&& final(self).statics() == old(self).statics().push((src, *item))
                &&& exists|r|
                    {
                        &&& #[trigger] L::may_load(src, r)
                        &&& L::FailResponse::resolves(r, *item)
                        &&& (r matches Ok(v) ==> *item == v)
                    }
            },
    {
        let found = self.find_static(&src);
        let idx: usize = match found {
            Some(i) => i,
            None => {
                let item = L::load(src);
                self.static_assets.push((src, item));
                self.static_assets.len() - 1
            },
        };
        &self.static_assets[idx].1
    }

    /// Gets the asset from the asset list or loads it immediately if
    /// it isn't there.
    ///
    /// The returned handle shares ownership of the resident instance:
    /// a later call with the same source hands out another handle to
    /// that very instance rather than loading again.  The instance is
    /// released, through the asset's own `Drop`, only once every
    /// handle, the registry's own one included, is gone.
    pub fn get(&mut self, src: L::Source) -> (handle: Rc<L::Item>)
        where L::Source: PartialEq + Copy
        requires
            old(self).wf(),
            obeys_concrete_eq::<L::Source>(),
            !old(self).has_dynamic(src) ==> forall|r|
                #[trigger] L::may_load(src, r) ==> L::FailResponse::accepts(r),
        ensures
            final(self).wf(),
            final(self).statics() == old(self).statics(),
            final(self).has_dynamic(src),
            handle == final(self).dynamic_for(src),
            old(self).has_dynamic(src) ==> *final(self) == *old(self),
            !old(self).has_dynamic(src) ==> {
                &&& final(self).dynamics() == old(self).dynamics().push((src, handle))
                &&& exists|r|
                    {
                        &&& #[trigger] L::may_load(src, r)
                        &&& L::FailResponse::resolves(r, *handle)
                        &&& (r matches Ok(v) ==> *handle == v)
                    }
            },
    {
        let found = self.find_dynamic(&src);
        match found {
            Some(i) => {
                let handle = clone_handle(&self.assets[i].1);
                proof {
                    assert(self.has_dynamic(src));
                    assert(handle == self.dynamic_for(src));
                }
                handle
            },
            None => {
                let item = L::load(src);
                let handle = Rc::new(item);
                let stored = clone_handle(&handle);
                self.assets.push((src, stored));
                proof {
                    assert(self.dynamics() =~= old(self).dynamics().push((src, handle)));
                    assert(self.dynamics()[self.dynamics().len() - 1].0 == src);
                    assert(self.has_dynamic(src));
                    assert(handle == self.dynamic_for(src));
                }
                handle
            },
        }
    }
}

} // verus!
