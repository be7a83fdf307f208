//! The client and the services it announces.

use crate::error::{Error, ErrorKind};
use crate::task::{AnnounceMessage, AnnounceTask};
use vstd::prelude::*;
use vstd::string::*;

verus! {

/// A client of one discovery gateway.
///
/// It knows the gateway's base URL and which services it is announcing. A
/// service is announced at most once at a time.
#[derive(Debug)]
pub struct GrenacheClient {
    url: String,
    services: Vec<String>,
}

/// Whether a service that is not announced may be started.
pub open spec fn start_accepted(announcing: Set<Seq<char>>, service: Seq<char>) -> bool {
    !announcing.contains(service)
}

/// The services announced after a start was asked for.
pub open spec fn after_start(announcing: Set<Seq<char>>, service: Seq<char>) -> Set<Seq<char>> {
    announcing.insert(service)
}

/// Whether a service can be stopped.
pub open spec fn stop_accepted(announcing: Set<Seq<char>>, service: Seq<char>) -> bool {
    announcing.contains(service)
}

/// The services announced after a stop was asked for.
pub open spec fn after_stop(announcing: Set<Seq<char>>, service: Seq<char>) -> Set<Seq<char>> {
    announcing.remove(service)
}

/// The message of the error for a service that is announced already.
pub open spec fn already_announcing_message(service: Seq<char>) -> Seq<char> {
    "Already announcing "@ + service
}

/// The message of the error for a service that is not announced.
pub open spec fn not_announcing_message(service: Seq<char>) -> Seq<char> {
    "Wasn't announcing "@ + service
}

/// The names held in a list, as character sequences.
pub open spec fn names_of(list: Seq<String>) -> Seq<Seq<char>> {
    list.map_values(|name: String| name@)
}

impl GrenacheClient {
    #[verifier::type_invariant]
    spec fn no_service_twice(&self) -> bool {
        names_of(self.services@).no_duplicates()
    }

    /// The base URL of the gateway.
    pub closed spec fn base_url(&self) -> Seq<char> {
        self.url@
    }

    /// The services that are being announced.
    pub closed spec fn announcing(&self) -> Set<Seq<char>> {
        names_of(self.services@).to_set()
    }

    /// A client of the gateway at `url`, which announces nothing yet.
    pub fn new(url: &str) -> (client: GrenacheClient)
        ensures
            client.base_url() == url@,
            client.announcing() == Set::<Seq<char>>::empty(),
    {
        let client = GrenacheClient { url: String::from_str(url), services: Vec::new() };
        assert(names_of(client.services@) =~= Seq::<Seq<char>>::empty());
        assert(client.announcing() =~= Set::<Seq<char>>::empty());
        client
    }

    /// The base URL of the gateway.
    pub fn url(&self) -> (url: &str)
        ensures
            url@ == self.base_url(),
    {
        self.url.as_str()
    }

    /// Where a service stands in the list, if it does.
    fn position(&self, service: &str) -> (at: Option<usize>)
        ensures
            match at {
                Some(i) => i < self.services@.len() && self.services@[i as int]@ == service@,
                None => !names_of(self.services@).contains(service@),
            },
    {
        let key = String::from_str(service);
        let mut i: usize = 0;
        while i < self.services.len()
            invariant
                i <= self.services.len(),
                key@ == service@,
                forall|j: int| 0 <= j < i ==> self.services@[j]@ != service@,
            decreases self.services.len() - i,
        {
            if self.services[i] == key {
                return Some(i);
            }
            i += 1;
        }
        None
    }

    /// Whether the service is being announced.
    pub fn is_announcing(&self, service: &str) -> (announced: bool)
        ensures
            announced == self.announcing().contains(service@),
    {
        let at = self.position(service);
        proof {
            if let Some(i) = at {
                assert(names_of(self.services@)[i as int] == service@);
            }
        }
        at.is_some()
    }

    /// Starts to announce a service on a port.
    ///
    /// A service that is announced already gives an `AlreadyAnnouncing` error
    /// and changes nothing. Any other service is recorded, and the caller
    /// gets the task to run in the background for it.
    pub fn start_announcing(&mut self, service: &str, port: u16) -> (r: Result<AnnounceTask, Error>)
        ensures
            final(self).base_url() == old(self).base_url(),
            start_accepted(old(self).announcing(), service@) ==> (r matches Ok(task) && task.url@
                == old(self).base_url() && task.service@ == service@ && task.port == port
                && final(self).announcing() == after_start(old(self).announcing(), service@)),
            !start_accepted(old(self).announcing(), service@) ==> (r matches Err(e) && e.kind
                == ErrorKind::AlreadyAnnouncing && e.msg@ == already_announcing_message(service@)
                && final(self).announcing() == old(self).announcing()),
    {
        proof {
            use_type_invariant(&*self);
        }
        if self.is_announcing(service) {
            let mut msg = String::from_str("Already announcing ");
            msg.append(service);
            return Err(Error { kind: ErrorKind::AlreadyAnnouncing, msg });
        }
        let ghost before = self.services@;
        let mut services: Vec<String> = Vec::new();
        assert(names_of(services@) =~= Seq::<Seq<char>>::empty());
        std::mem::swap(&mut self.services, &mut services);
        services.push(String::from_str(service));
        proof {
            assert(names_of(services@) =~= names_of(before).push(service@));
            lemma_push_new_name(names_of(before), service@);
        }
        std::mem::swap(&mut self.services, &mut services);
        Ok(AnnounceTask { url: self.url.clone(), service: String::from_str(service), port })
    }

    /// Stops to announce a service.
    ///
    /// A service that is not announced gives a `NotAnnouncing` error and
    /// changes nothing. Any other service is forgotten, and the caller gets
    /// the message to send to its background task. The task ends when it next
    /// looks for a message; this function does not wait for that.
    pub fn stop_announcing(&mut self, service: &str) -> (r: Result<AnnounceMessage, Error>)
        ensures
            final(self).base_url() == old(self).base_url(),
            stop_accepted(old(self).announcing(), service@) ==> (r == Ok::<AnnounceMessage, Error>(
                AnnounceMessage::STOP,
            ) && final(self).announcing() == after_stop(old(self).announcing(), service@)),
            !stop_accepted(old(self).announcing(), service@) ==> (r matches Err(e) && e.kind
                == ErrorKind::NotAnnouncing && e.msg@ == not_announcing_message(service@)
                && final(self).announcing() == old(self).announcing()),
    {
        proof {
            use_type_invariant(&*self);
        }
        match self.position(service) {
            None => {
                let mut msg = String::from_str("Wasn't announcing ");
                msg.append(service);
                Err(Error { kind: ErrorKind::NotAnnouncing, msg })
            },
            Some(i) => {
                let ghost before = self.services@;
                let mut services: Vec<String> = Vec::new();
                assert(names_of(services@) =~= Seq::<Seq<char>>::empty());
                std::mem::swap(&mut self.services, &mut services);
                services.remove(i);
                proof {
                    assert(names_of(services@) =~= names_of(before).remove(i as int));
                    assert(names_of(before)[i as int] == service@);
                    lemma_remove_name(names_of(before), i as int);
                }
                std::mem::swap(&mut self.services, &mut services);
                Ok(AnnounceMessage::STOP)
            },
        }
    }
}

/// A request to a client to start or to stop announcing a service.
pub enum LifecycleRequest {
    Start(Seq<char>),
    Stop(Seq<char>),
}

/// The services that a new client announces after a history of requests, of
/// which each was accepted or rejected as `start_announcing` and
/// `stop_announcing` do.
pub open spec fn announcing_after(history: Seq<LifecycleRequest>) -> Set<Seq<char>>
    decreases history.len(),
{
    if history.len() == 0 {
        Set::empty()
    } else {
        let before = announcing_after(history.drop_last());
        match history.last() {
            LifecycleRequest::Start(service) => after_start(before, service),
            LifecycleRequest::Stop(service) => after_stop(before, service),
        }
    }
}

/// A service that was started is not started a second time: the second
/// request is rejected, and so yields no second task, until the service is
/// stopped.
pub proof fn lemma_second_start_is_rejected(announcing: Set<Seq<char>>, service: Seq<char>)
    requires
        start_accepted(announcing, service),
    ensures
        !start_accepted(after_start(announcing, service), service),
        stop_accepted(after_start(announcing, service), service),
{
}

/// A service that was started and then stopped is as it was before: it can
/// be started again, and the other services are untouched.
pub proof fn lemma_start_then_stop(announcing: Set<Seq<char>>, service: Seq<char>)
    requires
        start_accepted(announcing, service),
    ensures
        after_stop(after_start(announcing, service), service) == announcing,
        start_accepted(after_stop(after_start(announcing, service), service), service),
{
    assert(after_stop(after_start(announcing, service), service) =~= announcing);
}

/// A service that no request has started cannot be stopped, whatever was
/// asked of the client before.
pub proof fn lemma_never_started_cannot_stop(history: Seq<LifecycleRequest>, service: Seq<char>)
    requires
        forall|i: int|
            0 <= i < history.len() ==> #[trigger] history[i] != LifecycleRequest::Start(service),
    ensures
        !stop_accepted(announcing_after(history), service),
    decreases history.len(),
{
    if history.len() > 0 {
        let front = history.drop_last();
        assert forall|i: int| 0 <= i < front.len() implies #[trigger] front[i]
            != LifecycleRequest::Start(service) by {
            assert(front[i] == history[i]);
        }
        lemma_never_started_cannot_stop(front, service);
        assert(history.last() == history[history.len() - 1]);
    }
}

/// A name that is put behind a list without it makes a list without
/// duplicates, whose names are those of the list and the new one.
proof fn lemma_push_new_name(names: Seq<Seq<char>>, name: Seq<char>)
    requires
        names.no_duplicates(),
        !names.contains(name),
    ensures
        names.push(name).no_duplicates(),
        names.push(name).to_set() == names.to_set().insert(name),
{
    let longer = names.push(name);
    assert forall|i: int, j: int|
        0 <= i < longer.len() && 0 <= j < longer.len() && i != j implies longer[i] != longer[j] by {
        if i < names.len() {
            assert(names.contains(names[i]));
        }
        if j < names.len() {
            assert(names.contains(names[j]));
        }
    }
    assert forall|x: Seq<char>|
        longer.to_set().contains(x) <==> names.to_set().insert(name).contains(x) by {
        if longer.contains(x) {
            let i = choose|i: int| 0 <= i < longer.len() && longer[i] == x;
            if i < names.len() {
                assert(names[i] == x);
                assert(names.contains(x));
            }
        }
        if names.contains(x) {
            let i = choose|i: int| 0 <= i < names.len() && names[i] == x;
            assert(longer[i] == x);
        }
        if x == name {
            assert(longer[names.len() as int] == x);
        }
    }
    assert(longer.to_set() =~= names.to_set().insert(name));
}

/// A list without duplicates from which one name is taken is a list without
/// duplicates, whose names are those of the list but the one taken.
proof fn lemma_remove_name(names: Seq<Seq<char>>, at: int)
    requires
        names.no_duplicates(),
        0 <= at < names.len(),
    ensures
        names.remove(at).no_duplicates(),
        names.remove(at).to_set() == names.to_set().remove(names[at]),
{
    let shorter = names.remove(at);
    assert forall|i: int| 0 <= i < shorter.len() implies shorter[i] == names[if i < at {
        i
    } else {
        i + 1
    }] by {}
    assert forall|x: Seq<char>|
        shorter.to_set().contains(x) <==> names.to_set().remove(names[at]).contains(x) by {
        if shorter.contains(x) {
            let i = choose|i: int| 0 <= i < shorter.len() && shorter[i] == x;
            let k = if i < at { i } else { i + 1 };
            assert(names[k] == x);
            assert(names.contains(x));
        }
        if names.contains(x) && x != names[at] {
            let k = choose|k: int| 0 <= k < names.len() && names[k] == x;
            let i = if k < at { k } else { k - 1 };
            assert(shorter[i] == x);
        }
    }
    assert(shorter.to_set() =~= names.to_set().remove(names[at]));
}

impl Clone for GrenacheClient {
    /// A client of the same gateway that announces the same services.
    fn clone(&self) -> (copy: GrenacheClient)
        ensures
            copy.base_url() == self.base_url(),
            copy.announcing() == self.announcing(),
    {
        proof {
            use_type_invariant(self);
        }
        let mut services: Vec<String> = Vec::new();
        let mut i: usize = 0;
        while i < self.services.len()
            invariant
                i <= self.services.len(),
                services@ == self.services@.take(i as int),
            decreases self.services.len() - i,
        {
            services.push(self.services[i].clone());
            i += 1;
        }
        assert(services@ == self.services@);
        GrenacheClient { url: self.url.clone(), services }
    }
}

} // verus!
