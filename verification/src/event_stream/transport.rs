//! What the event stream asks of the component that retries failed messages.
use vstd::prelude::*;

verus! {

/// Routing of failed messages to retry topics.
pub trait RetrierExt {
    /// The routing can be computed without overflow.
    spec fn routes(&self) -> bool;

    /// The topic to which a message on its `current_retry`-th retry goes, or
    /// `None` when it is not retried any more.
    spec fn topic_for_retry(&self, current_retry: usize) -> Option<Seq<char>>;

    /// The brokers of the retry topics.
    spec fn brokers(&self) -> Seq<char>;

    fn get_topic_based_on_retry(&self, current_retry: usize) -> (r: Option<String>)
        requires
            self.routes(),
        ensures
            r is Some <==> self.topic_for_retry(current_retry) is Some,
            r matches Some(t) ==> self.topic_for_retry(current_retry) == Some(t@),
    ;

    fn get_brokers_retry(&self) -> (r: &str)
        ensures
            r@ == self.brokers(),
    ;
}

} // verus!
