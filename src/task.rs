use vstd::prelude::*;
use vstd::string::*;

use crate::stamp::Stamp;

verus! {

/// How urgent a task is.
#[derive(Clone, Copy, Debug, PartialEq, Eq, Structural)]
pub enum PriorityEnum {
    High,
    Medium,
    Low,
}

/// The word that names a priority level in listings.
pub open spec fn level_word(p: PriorityEnum) -> Seq<char> {
    match p {
        PriorityEnum::High => "high"@,
        PriorityEnum::Medium => "medium"@,
        PriorityEnum::Low => "low"@,
    }
}

/// The tail that a listing line gets for a priority: empty where there is none.
pub open spec fn priority_suffix(p: Option<PriorityEnum>) -> Seq<char> {
    match p {
        Some(level) => " - Priority "@ + level_word(level),
        None => Seq::empty(),
    }
}

/// The completion time as a listing shows it.
pub open spec fn completed_text(c: Option<Stamp>) -> Seq<char> {
    match c {
        Some(s) => s.text(),
        None => "Not completed"@,
    }
}

impl PriorityEnum {
    /// The word that names this level in listings.
    pub fn level(&self) -> (r: &'static str)
        ensures
            r@ == level_word(*self),
    {
        match self {
            PriorityEnum::High => "high",
            PriorityEnum::Medium => "medium",
            PriorityEnum::Low => "low",
        }
    }
}

/// One to-do item.
#[derive(Debug)]
pub struct Task {
    pub id: i32,
    pub title: String,
    pub done: bool,
    pub created_at: Stamp,
    pub completed_at: Option<Stamp>,
    pub priority: Option<PriorityEnum>,
}

impl Task {
    /// A task's completion time is present exactly when it is done.
    pub open spec fn wf(self) -> bool {
        self.completed_at.is_some() == self.done
    }

    /// The listing line of a task.
    pub open spec fn line(self) -> Seq<char> {
        if self.done {
            "✅ "@ + self.title@ + " – created "@ + self.created_at.text() + " – completed "@
                + completed_text(self.completed_at) + priority_suffix(self.priority)
        } else {
            "❌ "@ + self.title@ + " – created "@ + self.created_at.text() + priority_suffix(
                self.priority,
            )
        }
    }

    /// The listing line of the task: a check mark, the title, the creation time,
    /// for a done task its completion time, and the priority if any.
    pub fn display(&self) -> (r: String)
        ensures
            r@ == self.line(),
    {
        let mut out = String::new();
        if self.done {
            out.append("✅ ");
        } else {
            out.append("❌ ");
        }
        out.append(self.title.as_str());
        out.append(" – created ");
        let created = self.created_at.display_text();
        out.append(created.as_str());
        if self.done {
            out.append(" – completed ");
            match &self.completed_at {
                Some(c) => {
                    let text = c.display_text();
                    out.append(text.as_str());
                },
                None => {
                    out.append("Not completed");
                },
            }
        }
        match &self.priority {
            Some(level) => {
                out.append(" - Priority ");
                out.append(level.level());
            },
            None => {},
        }
        proof {
            assert(out@ =~= self.line());
        }
        out
    }
}

} // verus!
