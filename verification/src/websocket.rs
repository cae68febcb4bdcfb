//! The clients connected to the live feed, and the messages it carries.
use vstd::prelude::*;

use crate::models::{AlertEvent, HydraulicMetrics, SensorData};
use crate::text::str_eq;

verus! {

/// A status line pushed to the live clients.
#[derive(Debug, Clone)]
pub struct StatusMessage {
    pub status: String,
    pub message: String,
}

/// A message pushed to the live clients.
#[derive(Debug, Clone)]
pub enum WsMessage {
    SensorData(SensorData),
    HydraulicMetrics(HydraulicMetrics),
    Alert(AlertEvent),
    Status(StatusMessage),
}

/// The ids of the clients currently connected, each once.
pub struct ConnectedClients {
    ids: Vec<String>,
}

pub open spec fn id_views(ids: Seq<String>) -> Seq<Seq<char>> {
    ids.map_values(|s: String| s@)
}

impl View for ConnectedClients {
    type V = Set<Seq<char>>;

    closed spec fn view(&self) -> Set<Seq<char>> {
        id_views(self.ids@).to_set()
    }
}

proof fn lemma_distinct_count(ids: Seq<String>)
    requires
        id_views(ids).no_duplicates(),
    ensures
        id_views(ids).to_set().len() == ids.len(),
        id_views(ids).to_set().finite(),
{
    id_views(ids).unique_seq_to_set();
    vstd::seq_lib::seq_to_set_is_finite(id_views(ids));
}

proof fn lemma_index_of_view(ids: Seq<String>, x: Seq<char>)
    requires
        id_views(ids).to_set().contains(x),
    ensures
        exists|i: int| 0 <= i < ids.len() && ids[i]@ == x,
{
    let i = choose|i: int| 0 <= i < id_views(ids).len() && id_views(ids)[i] == x;
    assert(ids[i]@ == x);
}

impl ConnectedClients {
    #[verifier::type_invariant]
    spec fn distinct(&self) -> bool {
        id_views(self.ids@).no_duplicates()
    }

    /// No client connected.
    pub fn new() -> (r: Self)
        ensures
            r@ == Set::<Seq<char>>::empty(),
    {
        let r = ConnectedClients { ids: Vec::new() };
        assert(id_views(r.ids@).to_set() =~= Set::<Seq<char>>::empty());
        r
    }

    fn position(&self, client_id: &str) -> (r: Option<usize>)
        ensures
            r matches Some(i) ==> i < self.ids@.len() && self.ids@[i as int]@ == client_id@,
            r is None ==> !self@.contains(client_id@),
    {
        let n = self.ids.len();
        let mut i: usize = 0;
        while i < n
            invariant
                n == self.ids@.len(),
                0 <= i <= n,
                forall|k: int| 0 <= k < i ==> self.ids@[k]@ != client_id@,
            decreases n - i,
        {
            if str_eq(self.ids[i].as_str(), client_id) {
                return Some(i);
            }
            i = i + 1;
        }
        proof {
            if self@.contains(client_id@) {
                lemma_index_of_view(self.ids@, client_id@);
            }
        }
        None
    }

    /// Connects `client_id` (again, if it already was); gives the number of
    /// clients connected afterwards.
    pub fn subscribe(&mut self, client_id: String) -> (r: usize)
        ensures
            final(self)@ == old(self)@.insert(client_id@),
            r == final(self)@.len(),
    {
        proof {
            use_type_invariant(&*self);
        }
        let ghost before = self.ids@;
        match self.position(client_id.as_str()) {
            None => {
                let mut ids: Vec<String> = Vec::new();
                std::mem::swap(&mut ids, &mut self.ids);
                ids.push(client_id);
                proof {
                    assert(id_views(ids@) =~= id_views(before).push(ids@.last()@));
                    id_views(before).lemma_push_to_set_commute(ids@.last()@);
                    assert(id_views(ids@).no_duplicates());
                }
                self.ids = ids;
            },
            Some(i) => {
                proof {
                    assert(id_views(before)[i as int] == client_id@);
                    assert(id_views(before).contains(client_id@));
                    assert(old(self)@.insert(client_id@) =~= old(self)@);
                }
            },
        }
        proof {
            use_type_invariant(&*self);
            lemma_distinct_count(self.ids@);
        }
        self.ids.len()
    }

    /// Disconnects `client_id`, if it was connected; gives the number of
    /// clients connected afterwards.
    pub fn unsubscribe(&mut self, client_id: &str) -> (r: usize)
        ensures
            final(self)@ == old(self)@.remove(client_id@),
            r == final(self)@.len(),
    {
        proof {
            use_type_invariant(&*self);
        }
        let ghost before = self.ids@;
        match self.position(client_id) {
            Some(i) => {
                let mut ids: Vec<String> = Vec::new();
                std::mem::swap(&mut ids, &mut self.ids);
                ids.remove(i);
                proof {
                    let vb = id_views(before);
                    let va = id_views(ids@);
                    assert(va =~= vb.remove(i as int));
                    assert(vb[i as int] == client_id@);
                    assert forall|x: Seq<char>|
                        #[trigger] vb.to_set().remove(client_id@).contains(x) implies va.to_set().contains(
                        x,
                    ) by {
                        let k = choose|k: int| 0 <= k < vb.len() && vb[k] == x;
                        assert(k != i);
                        if k < i {
                            assert(va[k] == x);
                        } else {
                            assert(va[k - 1] == x);
                        }
                        assert(va.contains(x));
                    }
                    assert forall|x: Seq<char>| #[trigger] va.to_set().contains(x) implies vb.to_set().remove(
                        client_id@,
                    ).contains(x) by {
                        let k = choose|k: int| 0 <= k < va.len() && va[k] == x;
                        let j = if k < i {
                            k
                        } else {
                            k + 1
                        };
                        assert(vb[j] == x);
                        assert(j != i);
                        assert(vb[j] != vb[i as int]);
                        assert(vb.contains(x));
                    }
                    assert(va.to_set() =~= vb.to_set().remove(client_id@));
                }
                self.ids = ids;
            },
            None => {
                proof {
                    assert(old(self)@.remove(client_id@) =~= old(self)@);
                }
            },
        }
        proof {
            use_type_invariant(&*self);
            lemma_distinct_count(self.ids@);
        }
        self.ids.len()
    }

    /// How many clients are connected.
    pub fn client_count(&self) -> (r: usize)
        ensures
            r == self@.len(),
    {
        proof {
            use_type_invariant(self);
            lemma_distinct_count(self.ids@);
        }
        self.ids.len()
    }
}

/// Connecting a client that was not connected and disconnecting it again
/// leaves the same clients connected.
pub proof fn law_connect_then_disconnect_restores(clients: Set<Seq<char>>, id: Seq<char>)
    requires
        !clients.contains(id),
    ensures
        clients.insert(id).remove(id) == clients,
{
    assert(clients.insert(id).remove(id) =~= clients);
}

/// The message announcing `status`, with `message` as its text.
pub fn status_message(status: &str, message: &str) -> (r: WsMessage)
    ensures
        r matches WsMessage::Status(m) && m.status@ == status@ && m.message@ == message@,
{
    WsMessage::Status(
        StatusMessage { status: String::from_str(status), message: String::from_str(message) },
    )
}

} // verus!
