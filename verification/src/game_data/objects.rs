//! Champions and queues.

use vstd::prelude::*;

pub use crate::riot_datatypes::Champion;

verus! {

/// A game queue with its name and description.
pub struct Queue {
    pub id: i64,
    pub name: String,
    pub description: String,
}

/// The queue of the practice tool (queue id -1).
pub open spec fn is_practice_tool(q: Queue) -> bool {
    q.id == -1 && q.name@ == "Practicetool"@ && q.description@ == "Practicetool"@
}

/// The queue of custom games (queue id 0).
pub open spec fn is_custom_game(q: Queue) -> bool {
    q.id == 0 && q.name@ == "Custom Game"@ && q.description@ == "Custom Game"@
}

/// The queue for a queue id that the client's queue API does not know:
/// the practice tool (-1) and custom games (0). Every other queue is
/// looked up.
pub fn builtin_queue(queue_id: i64) -> (r: Option<Queue>)
    ensures
        queue_id == -1 ==> r is Some && is_practice_tool(r->0),
        queue_id == 0 ==> r is Some && is_custom_game(r->0),
        queue_id != -1 && queue_id != 0 ==> r is None,
{
    if queue_id == -1 {
        Some(Queue { id: -1, name: String::from_str("Practicetool"), description: String::from_str("Practicetool") })
    } else if queue_id == 0 {
        Some(Queue { id: 0, name: String::from_str("Custom Game"), description: String::from_str("Custom Game") })
    } else {
        None
    }
}

} // verus!
