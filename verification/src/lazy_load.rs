//! A value that is worked out when it is first asked for.

use vstd::prelude::*;
use std::rc::Rc;
use crate::error::ParseError;

verus! {

/// A cache for one optional value. It starts out `NotLoaded`. The first
/// successful load makes it `Loaded`, with the value or with the knowledge
/// that there is none, and it never changes again.
pub enum LazyLoad<T> {
    NotLoaded,
    Loaded(Option<Rc<T>>),
}

/// What a cache holds, with the view of the value in place of the value.
pub enum CacheView<V> {
    NotLoaded,
    Loaded(Option<V>),
}

impl<V> CacheView<V> {
    /// The cache after it was asked and the load, if one was needed, came
    /// back with `loaded`: a loaded cache stays as it is, an empty one
    /// keeps a success and stays empty on an error.
    pub open spec fn after(self, loaded: Result<Option<V>, ParseError>) -> Self {
        match self {
            CacheView::Loaded(_) => self,
            CacheView::NotLoaded => match loaded {
                Ok(value) => CacheView::Loaded(value),
                Err(_) => CacheView::NotLoaded,
            },
        }
    }
}

/// A cache that has been loaded is settled: whatever a later load would
/// return, the cache stays as it is. A load that fails leaves the cache as
/// it was.
pub proof fn lemma_loaded_cache_is_settled<V>(
    cache: CacheView<V>,
    first: Result<Option<V>, ParseError>,
    later: Result<Option<V>, ParseError>,
)
    ensures
        first is Ok ==> cache.after(first) is Loaded,
        first is Ok ==> cache.after(first).after(later) == cache.after(first),
        first is Err ==> cache.after(first) == cache,
{
}

impl<T: View> View for LazyLoad<T> {
    type V = CacheView<T::V>;

    open spec fn view(&self) -> CacheView<T::V> {
        match self {
            LazyLoad::NotLoaded => CacheView::NotLoaded,
            LazyLoad::Loaded(None) => CacheView::Loaded(None),
            LazyLoad::Loaded(Some(value)) => CacheView::Loaded(Some(value@)),
        }
    }
}

/// The view of what a load handed back.
pub open spec fn loaded_view<T: View>(r: Loaded<T>) -> Result<Option<T::V>, ParseError> {
    match r {
        Ok(Some(value)) => Ok(Some(value@)),
        Ok(None) => Ok(None),
        Err(e) => Err(e),
    }
}

/// What a load hands back: a value, the knowledge that there is none, or an
/// error.
pub type Loaded<T> = Result<Option<Rc<T>>, ParseError>;

/// Wraps `Rc::clone`: a second handle to the same value.
#[verifier::external_body]
fn share<T>(handle: &Rc<T>) -> (r: Rc<T>)
    ensures
        r == *handle,
{
    Rc::clone(handle)
}

/// A second handle to the value in `value`, if it holds one.
pub fn share_option<T>(value: &Option<Rc<T>>) -> (r: Option<Rc<T>>)
    ensures
        r == *value,
{
    match value {
        Some(handle) => Some(share(handle)),
        None => None,
    }
}

impl<T> LazyLoad<T> {
    /// The cache after it was asked, and the answer it gave, where a load,
    /// if one was needed, came back with `loaded`. A loaded cache answers
    /// with what it holds and ignores `loaded`. An empty one keeps a
    /// success and answers with it, and stays empty on an error.
    pub open spec fn spec_get_or_load(self, loaded: Loaded<T>) -> (Self, Loaded<T>) {
        match self {
            LazyLoad::Loaded(value) => (self, Ok(value)),
            LazyLoad::NotLoaded => match loaded {
                Ok(value) => (LazyLoad::Loaded(value), Ok(value)),
                Err(e) => (LazyLoad::NotLoaded, Err(e)),
            },
        }
    }

    /// Returns the cached value. Where nothing is cached yet, calls
    /// `do_load` and caches what it returns, unless that is an error. The
    /// error is returned and the cache stays empty, so that the next call
    /// tries again.
    pub fn get_or_load<F: FnOnce() -> Loaded<T>>(&mut self, do_load: F) -> (r: Loaded<T>)
        requires
            *old(self) is NotLoaded ==> call_requires(do_load, ()),
        ensures
            *old(self) is NotLoaded ==> call_ensures(do_load, (), r),
            (*final(self), r) == old(self).spec_get_or_load(r),
    {
        match self {
            LazyLoad::Loaded(value) => Ok(share_option(value)),
            LazyLoad::NotLoaded => {
                let data = do_load()?;
                let r = share_option(&data);
                *self = LazyLoad::Loaded(data);
                Ok(r)
            },
        }
    }
}

/// Once a cache has answered without an error, every later answer is the
/// same and the cache no longer changes, whatever a later load would
/// return.
pub proof fn lemma_get_or_load_idempotent<T>(cache: LazyLoad<T>, first: Loaded<T>, later: Loaded<T>)
    requires
        cache.spec_get_or_load(first).1 is Ok,
    ensures
        cache.spec_get_or_load(first).0.spec_get_or_load(later) == cache.spec_get_or_load(first),
        cache.spec_get_or_load(first).0 is Loaded,
{
}

/// A load that fails leaves an empty cache empty, and its error is the
/// answer.
pub proof fn lemma_failed_load_not_cached<T>(cache: LazyLoad<T>, e: ParseError)
    requires
        cache is NotLoaded,
    ensures
        cache.spec_get_or_load(Err(e)) == (cache, Err::<Option<Rc<T>>, ParseError>(e)),
{
}

} // verus!
