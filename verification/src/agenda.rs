//! Items on the agent's agenda.

use vstd::prelude::*;

use crate::json::{items_view, members_view, Json, JsonNumber, JsonView};

verus! {

/// An item on the agent's agenda.
#[derive(Debug, Clone)]
pub struct AgendaItem {
    pub id: String,
    pub description: String,
    pub status: AgendaStatus,
    pub priority: u32,
}

/// Where an agenda item stands.
#[derive(Debug, Clone, Copy, PartialEq, Eq, Structural)]
pub enum AgendaStatus {
    Pending,
    InProgress,
    Completed,
    Cancelled,
}

impl AgendaStatus {
    /// How the status reads to a person.
    pub open spec fn label(self) -> Seq<char> {
        match self {
            AgendaStatus::Pending => "pending"@,
            AgendaStatus::InProgress => "in_progress"@,
            AgendaStatus::Completed => "completed"@,
            AgendaStatus::Cancelled => "cancelled"@,
        }
    }

    /// How the status reads to a person.
    pub fn to_string(&self) -> (r: String)
        ensures
            r@ == self.label(),
    {
        match self {
            AgendaStatus::Pending => String::from_str("pending"),
            AgendaStatus::InProgress => String::from_str("in_progress"),
            AgendaStatus::Completed => String::from_str("completed"),
            AgendaStatus::Cancelled => String::from_str("cancelled"),
        }
    }

    /// The status in a JSON document: the name of its variant.
    pub open spec fn json_view(self) -> JsonView {
        match self {
            AgendaStatus::Pending => JsonView::Str("Pending"@),
            AgendaStatus::InProgress => JsonView::Str("InProgress"@),
            AgendaStatus::Completed => JsonView::Str("Completed"@),
            AgendaStatus::Cancelled => JsonView::Str("Cancelled"@),
        }
    }

    /// The status in a JSON document: the name of its variant.
    pub fn to_json(&self) -> (r: Json)
        ensures
            r@ == self.json_view(),
    {
        match self {
            AgendaStatus::Pending => Json::text("Pending"),
            AgendaStatus::InProgress => Json::text("InProgress"),
            AgendaStatus::Completed => Json::text("Completed"),
            AgendaStatus::Cancelled => Json::text("Cancelled"),
        }
    }
}

impl AgendaItem {
    /// The item as a JSON object with one member per field.
    pub open spec fn json_view(self) -> JsonView {
        JsonView::Object(
            seq![
                ("id"@, JsonView::Str(self.id@)),
                ("description"@, JsonView::Str(self.description@)),
                ("status"@, self.status.json_view()),
                ("priority"@, JsonView::Number(JsonNumber::PosInt(self.priority as u64))),
            ],
        )
    }

    /// The item as a JSON object with one member per field.
    pub fn to_json(&self) -> (r: Json)
        ensures
            r@ == self.json_view(),
    {
        let members = vec![
            Json::member("id", Json::text(self.id.as_str())),
            Json::member("description", Json::text(self.description.as_str())),
            Json::member("status", self.status.to_json()),
            Json::member("priority", Json::unsigned(self.priority as u64)),
        ];
        let ghost shown = members@;
        let r = Json::object(members);
        assert(members_view(shown) =~= self.json_view()->Object_0);
        r
    }
}

/// A list of agenda items as a JSON array of their objects, in order.
pub open spec fn agenda_view(items: Seq<AgendaItem>) -> JsonView {
    JsonView::Array(items.map_values(|item: AgendaItem| item.json_view()))
}

/// A list of agenda items as a JSON array of their objects, in order.
pub fn agenda_to_json(items: &Vec<AgendaItem>) -> (r: Json)
    ensures
        r@ == agenda_view(items@),
{
    let mut out: Vec<Json> = Vec::new();
    let mut i: usize = 0;
    while i < items.len()
        invariant
            0 <= i <= items@.len(),
            out@.len() == i,
            forall|k: int| 0 <= k < i ==> (#[trigger] out@[k])@ == items@[k].json_view(),
        decreases items@.len() - i,
    {
        let item_json = items[i].to_json();
        out.push(item_json);
        i = i + 1;
    }
    assert(items_view(out@) =~= items@.map_values(|item: AgendaItem| item.json_view()));
    Json::array(out)
}

/// Each status of a agenda item is shown in JSON as the name of its own variant
/// and reads to a person as its own word, so distinct statuses are never
/// shown alike.
pub proof fn lemma_status_names_its_variant()
    ensures
        AgendaStatus::Pending.json_view() == JsonView::Str("Pending"@),
        AgendaStatus::InProgress.json_view() == JsonView::Str("InProgress"@),
        AgendaStatus::Completed.json_view() == JsonView::Str("Completed"@),
        AgendaStatus::Cancelled.json_view() == JsonView::Str("Cancelled"@),
        AgendaStatus::Pending.label() == "pending"@,
        AgendaStatus::InProgress.label() == "in_progress"@,
        AgendaStatus::Completed.label() == "completed"@,
        AgendaStatus::Cancelled.label() == "cancelled"@,
        forall|a: AgendaStatus, b: AgendaStatus| #[trigger] a.json_view() == #[trigger] b.json_view() ==> a == b,
        forall|a: AgendaStatus, b: AgendaStatus| #[trigger] a.label() == #[trigger] b.label() ==> a == b,
{
    reveal_strlit("Pending");
    reveal_strlit("InProgress");
    reveal_strlit("Completed");
    reveal_strlit("Cancelled");
    reveal_strlit("pending");
    reveal_strlit("in_progress");
    reveal_strlit("completed");
    reveal_strlit("cancelled");
    assert("Pending"@.len() != "InProgress"@.len());
    assert("Pending"@.len() != "Completed"@.len());
    assert("Pending"@.len() != "Cancelled"@.len());
    assert("InProgress"@.len() != "Completed"@.len());
    assert("InProgress"@.len() != "Cancelled"@.len());
    assert("Completed"@[1] != "Cancelled"@[1]);
    assert("pending"@.len() != "in_progress"@.len());
    assert("pending"@.len() != "completed"@.len());
    assert("pending"@.len() != "cancelled"@.len());
    assert("in_progress"@.len() != "completed"@.len());
    assert("in_progress"@.len() != "cancelled"@.len());
    assert("completed"@[1] != "cancelled"@[1]);
}

} // verus!
