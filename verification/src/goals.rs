//! Goals the agent pursues.

use vstd::prelude::*;

use crate::json::{items_view, members_view, Json, JsonNumber, JsonView};

verus! {

/// A goal tracked by the agent.
#[derive(Debug, Clone)]
pub struct Goal {
    pub id: String,
    pub description: String,
    pub status: GoalStatus,
    pub priority: u32,
}

/// Where a goal stands.
#[derive(Debug, Clone, Copy, PartialEq, Eq, Structural)]
pub enum GoalStatus {
    Active,
    Completed,
    Cancelled,
    Blocked,
}

impl GoalStatus {
    /// How the status reads to a person.
    pub open spec fn label(self) -> Seq<char> {
        match self {
            GoalStatus::Active => "active"@,
            GoalStatus::Completed => "completed"@,
            GoalStatus::Cancelled => "cancelled"@,
            GoalStatus::Blocked => "blocked"@,
        }
    }

    /// How the status reads to a person.
    pub fn to_string(&self) -> (r: String)
        ensures
            r@ == self.label(),
    {
        match self {
            GoalStatus::Active => String::from_str("active"),
            GoalStatus::Completed => String::from_str("completed"),
            GoalStatus::Cancelled => String::from_str("cancelled"),
            GoalStatus::Blocked => String::from_str("blocked"),
        }
    }

    /// The status in a JSON document: the name of its variant.
    pub open spec fn json_view(self) -> JsonView {
        match self {
            GoalStatus::Active => JsonView::Str("Active"@),
            GoalStatus::Completed => JsonView::Str("Completed"@),
            GoalStatus::Cancelled => JsonView::Str("Cancelled"@),
            GoalStatus::Blocked => JsonView::Str("Blocked"@),
        }
    }

    /// The status in a JSON document: the name of its variant.
    pub fn to_json(&self) -> (r: Json)
        ensures
            r@ == self.json_view(),
    {
        match self {
            GoalStatus::Active => Json::text("Active"),
            GoalStatus::Completed => Json::text("Completed"),
            GoalStatus::Cancelled => Json::text("Cancelled"),
            GoalStatus::Blocked => Json::text("Blocked"),
        }
    }
}

impl Goal {
    /// The goal as a JSON object with one member per field.
    pub open spec fn json_view(self) -> JsonView {
        JsonView::Object(
            seq![
                ("id"@, JsonView::Str(self.id@)),
                ("description"@, JsonView::Str(self.description@)),
                ("status"@, self.status.json_view()),
                ("priority"@, JsonView::Number(JsonNumber::PosInt(self.priority as u64))),
            ],
        )
    }

    /// The goal as a JSON object with one member per field.
    pub fn to_json(&self) -> (r: Json)
        ensures
            r@ == self.json_view(),
    {
        let members = vec![
            Json::member("id", Json::text(self.id.as_str())),
            Json::member("description", Json::text(self.description.as_str())),
            Json::member("status", self.status.to_json()),
            Json::member("priority", Json::unsigned(self.priority as u64)),
        ];
        let ghost shown = members@;
        let r = Json::object(members);
        assert(members_view(shown) =~= self.json_view()->Object_0);
        r
    }
}

/// A list of goals as a JSON array of their objects, in order.
pub open spec fn goals_view(items: Seq<Goal>) -> JsonView {
    JsonView::Array(items.map_values(|item: Goal| item.json_view()))
}

/// A list of goals as a JSON array of their objects, in order.
pub fn goals_to_json(items: &Vec<Goal>) -> (r: Json)
    ensures
        r@ == goals_view(items@),
{
    let mut out: Vec<Json> = Vec::new();
    let mut i: usize = 0;
    while i < items.len()
        invariant
            0 <= i <= items@.len(),
            out@.len() == i,
            forall|k: int| 0 <= k < i ==> (#[trigger] out@[k])@ == items@[k].json_view(),
        decreases items@.len() - i,
    {
        let item_json = items[i].to_json();
        out.push(item_json);
        i = i + 1;
    }
    assert(items_view(out@) =~= items@.map_values(|item: Goal| item.json_view()));
    Json::array(out)
}

/// Each status of a goal is shown in JSON as the name of its own variant
/// and reads to a person as its own word, so distinct statuses are never
/// shown alike.
pub proof fn lemma_status_names_its_variant()
    ensures
        GoalStatus::Active.json_view() == JsonView::Str("Active"@),
        GoalStatus::Completed.json_view() == JsonView::Str("Completed"@),
        GoalStatus::Cancelled.json_view() == JsonView::Str("Cancelled"@),
        GoalStatus::Blocked.json_view() == JsonView::Str("Blocked"@),
        GoalStatus::Active.label() == "active"@,
        GoalStatus::Completed.label() == "completed"@,
        GoalStatus::Cancelled.label() == "cancelled"@,
        GoalStatus::Blocked.label() == "blocked"@,
        forall|a: GoalStatus, b: GoalStatus| #[trigger] a.json_view() == #[trigger] b.json_view() ==> a == b,
        forall|a: GoalStatus, b: GoalStatus| #[trigger] a.label() == #[trigger] b.label() ==> a == b,
{
    reveal_strlit("Active");
    reveal_strlit("Completed");
    reveal_strlit("Cancelled");
    reveal_strlit("Blocked");
    reveal_strlit("active");
    reveal_strlit("completed");
    reveal_strlit("cancelled");
    reveal_strlit("blocked");
    assert("Active"@.len() != "Completed"@.len());
    assert("Active"@.len() != "Cancelled"@.len());
    assert("Active"@.len() != "Blocked"@.len());
    assert("Completed"@[1] != "Cancelled"@[1]);
    assert("Completed"@.len() != "Blocked"@.len());
    assert("Cancelled"@.len() != "Blocked"@.len());
    assert("active"@.len() != "completed"@.len());
    assert("active"@.len() != "cancelled"@.len());
    assert("active"@.len() != "blocked"@.len());
    assert("completed"@[1] != "cancelled"@[1]);
    assert("completed"@.len() != "blocked"@.len());
    assert("cancelled"@.len() != "blocked"@.len());
}

} // verus!
