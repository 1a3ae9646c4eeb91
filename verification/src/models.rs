use vstd::prelude::*;

verus! {

/// A topic (a named list of todos). Real topics have positive ids; the
/// built-in aggregate views use negative ids.
pub struct Topic {
    pub id: i64,
    pub name: String,
}

/// A comment attached to a todo.
pub struct Comment {
    pub id: i64,
    pub text: String,
    pub url: Option<String>,
    /// RFC 3339 timestamp.
    pub created_at: String,
}

/// A todo item.
pub struct Todo {
    pub id: i64,
    pub topic_id: i64,
    pub text: String,
    pub done: bool,
    pub url: Option<String>,
    /// ISO date "YYYY-MM-DD".
    pub due_date: Option<String>,
    /// 1 = high, 2 = medium, 3 = low.
    pub priority: Option<u8>,
    pub in_progress: bool,
    pub blocked: bool,
}

/// Mathematical model of a [`Topic`].
pub ghost struct TopicView {
    pub id: i64,
    pub name: Seq<char>,
}

/// Mathematical model of a [`Comment`].
pub ghost struct CommentView {
    pub id: i64,
    pub text: Seq<char>,
    pub url: Option<Seq<char>>,
    pub created_at: Seq<char>,
}

/// Mathematical model of a [`Todo`].
pub ghost struct TodoView {
    pub id: i64,
    pub topic_id: i64,
    pub text: Seq<char>,
    pub done: bool,
    pub url: Option<Seq<char>>,
    pub due_date: Option<Seq<char>>,
    pub priority: Option<u8>,
    pub in_progress: bool,
    pub blocked: bool,
}

/// The view of an optional string.
pub open spec fn opt_str_view(s: Option<String>) -> Option<Seq<char>> {
    match s {
        Some(x) => Some(x@),
        None => None,
    }
}

impl View for Topic {
    type V = TopicView;

    open spec fn view(&self) -> TopicView {
        TopicView { id: self.id, name: self.name@ }
    }
}

impl View for Comment {
    type V = CommentView;

    open spec fn view(&self) -> CommentView {
        CommentView {
            id: self.id,
            text: self.text@,
            url: opt_str_view(self.url),
            created_at: self.created_at@,
        }
    }
}

impl View for Todo {
    type V = TodoView;

    open spec fn view(&self) -> TodoView {
        TodoView {
            id: self.id,
            topic_id: self.topic_id,
            text: self.text@,
            done: self.done,
            url: opt_str_view(self.url),
            due_date: opt_str_view(self.due_date),
            priority: self.priority,
            in_progress: self.in_progress,
            blocked: self.blocked,
        }
    }
}

/// Copies an optional string.
pub fn clone_opt_string(s: &Option<String>) -> (r: Option<String>)
    ensures
        opt_str_view(r) == opt_str_view(*s),
{
    match s {
        Some(x) => Some(x.clone()),
        None => None,
    }
}

impl Topic {
    /// A copy of the topic.
    pub fn duplicate(&self) -> (r: Topic)
        ensures
            r@ == self@,
    {
        Topic { id: self.id, name: self.name.clone() }
    }
}

impl Comment {
    /// A copy of the comment.
    pub fn duplicate(&self) -> (r: Comment)
        ensures
            r@ == self@,
    {
        Comment {
            id: self.id,
            text: self.text.clone(),
            url: clone_opt_string(&self.url),
            created_at: self.created_at.clone(),
        }
    }
}

impl Todo {
    /// A copy of the todo.
    pub fn duplicate(&self) -> (r: Todo)
        ensures
            r@ == self@,
    {
        Todo {
            id: self.id,
            topic_id: self.topic_id,
            text: self.text.clone(),
            done: self.done,
            url: clone_opt_string(&self.url),
            due_date: clone_opt_string(&self.due_date),
            priority: self.priority,
            in_progress: self.in_progress,
            blocked: self.blocked,
        }
    }
}

} // verus!
