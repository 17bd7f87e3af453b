use vstd::prelude::*;

verus! {

/// What happened last while serving a request.
#[derive(Debug, Clone, Copy, PartialEq, Eq, Structural)]
pub enum ServeEvent {
    /// The original was fetched and its cache path resolved.
    Fetched,
    /// The cache held the artifact.
    CacheHit,
    /// The cache held no readable artifact.
    CacheMiss,
    /// The pipeline produced the artifact.
    Transformed,
    /// The artifact was written to the cache, or the write failed.
    Stored,
}

/// What the request handler does next.
#[derive(Debug, Clone, Copy, PartialEq, Eq, Structural)]
pub enum ServeAction {
    /// Read the artifact from the cache.
    ReadCache,
    /// Run the transform pipeline.
    Transform,
    /// Write the fresh artifact to the cache.
    WriteCache,
    /// Send the cached artifact.
    RespondCached,
    /// Send the fresh artifact.
    RespondFresh,
}

/// The next step: the cache is read before the pipeline runs and written
/// after it, both only when it is enabled.
pub open spec fn next_action_of(cache_enabled: bool, event: ServeEvent) -> ServeAction {
    match event {
        ServeEvent::Fetched => if cache_enabled {
            ServeAction::ReadCache
        } else {
            ServeAction::Transform
        },
        ServeEvent::CacheHit => ServeAction::RespondCached,
        ServeEvent::CacheMiss => ServeAction::Transform,
        ServeEvent::Transformed => if cache_enabled {
            ServeAction::WriteCache
        } else {
            ServeAction::RespondFresh
        },
        ServeEvent::Stored => ServeAction::RespondFresh,
    }
}

/// Decides the handler's next step after `event`.
pub fn next_action(cache_enabled: bool, event: ServeEvent) -> (r: ServeAction)
    ensures
        r == next_action_of(cache_enabled, event),
{
    match event {
        ServeEvent::Fetched => if cache_enabled {
            ServeAction::ReadCache
        } else {
            ServeAction::Transform
        },
        ServeEvent::CacheHit => ServeAction::RespondCached,
        ServeEvent::CacheMiss => ServeAction::Transform,
        ServeEvent::Transformed => if cache_enabled {
            ServeAction::WriteCache
        } else {
            ServeAction::RespondFresh
        },
        ServeEvent::Stored => ServeAction::RespondFresh,
    }
}

/// With the cache disabled no step reads or writes it: every request goes
/// from fetching the original straight to the pipeline, and from the
/// pipeline straight to the response.
pub proof fn law_disabled_cache_untouched(event: ServeEvent)
    ensures
        next_action_of(false, event) != ServeAction::ReadCache,
        next_action_of(false, event) != ServeAction::WriteCache,
        next_action_of(false, ServeEvent::Fetched) == ServeAction::Transform,
        next_action_of(false, ServeEvent::Transformed) == ServeAction::RespondFresh,
{
}

} // verus!
