//! The backend capability surface: which operations a backend offers, and
//! where each one comes from.

use vstd::prelude::*;

verus! {

/// An operation a backend may offer.
#[derive(Clone, Copy, Debug, PartialEq, Eq, Structural, Hash)]
pub enum BackendFeature {
    CheckUp,
    AddFolder,
    ListFolders,
    ExpungeFolder,
    PurgeFolder,
    DeleteFolder,
    GetEnvelope,
    ListEnvelopes,
    WatchEnvelopes,
    AddFlags,
    SetFlags,
    RemoveFlags,
    AddMessage,
    SendMessage,
    PeekMessages,
    GetMessages,
    CopyMessages,
    MoveMessages,
    DeleteMessages,
    RemoveMessages,
}

/// Where a backend takes an operation from.
#[derive(Clone, Copy, Debug, PartialEq, Eq, Structural)]
pub enum BackendFeatureSource {
    /// Nowhere: the operation is unavailable.
    Disabled,
    /// From the backend context, if it offers one.
    Context,
    /// From an implementation given to the builder.
    Backend,
}

/// Errors of the capability surface.
#[derive(Clone, Copy, Debug, PartialEq, Eq, Structural)]
pub enum BackendError {
    /// The operation is not available, or its configuration is not set.
    FeatureNotAvailable(BackendFeature),
}

/// Builds a backend: records where each operation comes from. An
/// operation with no recorded source comes from the fallback source.
#[derive(Debug)]
pub struct BackendBuilder {
    /// Where an operation with no recorded source comes from.
    pub fallback: BackendFeatureSource,
    /// The sources set so far; a later entry overrides an earlier one.
    pub sources: Vec<(BackendFeature, BackendFeatureSource)>,
}

/// The source of feature `f` given the recorded `sources`: the last one
/// recorded, else `fallback`.
pub open spec fn source_of(
    fallback: BackendFeatureSource,
    sources: Seq<(BackendFeature, BackendFeatureSource)>,
    f: BackendFeature,
) -> BackendFeatureSource
    decreases sources.len(),
{
    if sources.len() == 0 {
        fallback
    } else if sources.last().0 == f {
        sources.last().1
    } else {
        source_of(fallback, sources.drop_last(), f)
    }
}

/// Whether feature `f` is available from `source` when the context
/// offers it (`in_context`) or not.
pub open spec fn available(source: BackendFeatureSource, in_context: bool) -> bool {
    match source {
        BackendFeatureSource::Disabled => false,
        BackendFeatureSource::Context => in_context,
        BackendFeatureSource::Backend => true,
    }
}

impl BackendBuilder {
    /// Where feature `f` comes from.
    pub open spec fn source_spec(&self, f: BackendFeature) -> BackendFeatureSource {
        source_of(self.fallback, self.sources@, f)
    }

    /// A builder taking every operation from the context.
    pub fn new() -> (r: BackendBuilder)
        ensures
            forall|f: BackendFeature| r.source_spec(f) == BackendFeatureSource::Context,
    {
        BackendBuilder { fallback: BackendFeatureSource::Context, sources: Vec::new() }
    }

    /// Where feature `f` comes from.
    pub fn source(&self, f: BackendFeature) -> (r: BackendFeatureSource)
        ensures
            r == self.source_spec(f),
    {
        let mut i: usize = self.sources.len();
        assert(self.sources@.take(i as int) =~= self.sources@);
        while i > 0
            invariant
                0 <= i <= self.sources@.len(),
                self.source_spec(f) == source_of(self.fallback, self.sources@.take(i as int), f),
            decreases i,
        {
            let (g, s) = self.sources[i - 1];
            assert(self.sources@.take(i as int).drop_last() =~= self.sources@.take(i - 1));
            if g == f {
                return s;
            }
            i = i - 1;
        }
        self.fallback
    }

    /// Takes feature `f` from `source`.
    pub fn set_feature(&mut self, f: BackendFeature, source: BackendFeatureSource)
        ensures
            final(self).source_spec(f) == source,
            forall|g: BackendFeature| g != f ==> final(self).source_spec(g) == old(self).source_spec(g),
    {
        let ghost s0 = self.sources@;
        self.sources.push((f, source));
        assert(self.sources@.drop_last() =~= s0);
    }

    /// Takes feature `f` from `source`.
    pub fn with_feature(self, f: BackendFeature, source: BackendFeatureSource) -> (r: Self)
        ensures
            r.source_spec(f) == source,
            forall|g: BackendFeature| g != f ==> r.source_spec(g) == self.source_spec(g),
    {
        let mut b = self;
        b.set_feature(f, source);
        b
    }

    /// Makes feature `f` unavailable.
    pub fn without_feature(self, f: BackendFeature) -> (r: Self)
        ensures
            r.source_spec(f) == BackendFeatureSource::Disabled,
            forall|g: BackendFeature| g != f ==> r.source_spec(g) == self.source_spec(g),
    {
        self.with_feature(f, BackendFeatureSource::Disabled)
    }

    /// Makes every feature unavailable.
    pub fn without_features(self) -> (r: Self)
        ensures
            forall|f: BackendFeature| r.source_spec(f) == BackendFeatureSource::Disabled,
    {
        let r = BackendBuilder { fallback: BackendFeatureSource::Disabled, sources: Vec::new() };
        assert(forall|f: BackendFeature| r.source_spec(f) == BackendFeatureSource::Disabled);
        r
    }

    /// Checks that feature `f` is available, given whether the context
    /// offers it.
    pub fn check_feature(&self, f: BackendFeature, in_context: bool) -> (r: Result<(), BackendError>)
        ensures
            r is Ok <==> available(self.source_spec(f), in_context),
            r is Err ==> r == Err::<(), BackendError>(BackendError::FeatureNotAvailable(f)),
    {
        let available = match self.source(f) {
            BackendFeatureSource::Disabled => false,
            BackendFeatureSource::Context => in_context,
            BackendFeatureSource::Backend => true,
        };
        if available {
            Ok(())
        } else {
            Err(BackendError::FeatureNotAvailable(f))
        }
    }
}

} // verus!
