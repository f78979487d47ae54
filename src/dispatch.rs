//! Routing of a decoded request to the service that answers it.
use vstd::prelude::*;
use crate::service::{
    complete, completion_answer, hover, hover_answer, triggered_by, CompletionCandidate,
};
use crate::store::{KnowledgeStore, StoreEntry};

verus! {

/// The methods that the server answers.
#[derive(Clone, Copy, Debug, PartialEq, Eq, Structural)]
pub enum Method {
    Hover,
    Completion,
    ResolveCompletionItem,
}

/// The method with a protocol name, if it is one the server answers.
pub open spec fn method_named(name: Seq<char>) -> Option<Method> {
    if name == "textDocument/hover"@ {
        Some(Method::Hover)
    } else if name == "textDocument/completion"@ {
        Some(Method::Completion)
    } else if name == "completionItem/resolve"@ {
        Some(Method::ResolveCompletionItem)
    } else {
        None
    }
}

/// The method that a protocol name stands for; `None` for a method that has no handler.
pub fn method_from_name(name: &str) -> (r: Option<Method>)
    ensures
        r == method_named(name@),
{
    let n = name.to_owned();
    if n == "textDocument/hover".to_owned() {
        Some(Method::Hover)
    } else if n == "textDocument/completion".to_owned() {
        Some(Method::Completion)
    } else if n == "completionItem/resolve".to_owned() {
        Some(Method::ResolveCompletionItem)
    } else {
        None
    }
}

/// A decoded request, with the text of the document it is about.
pub enum Request {
    Hover { document: String, line: usize, character: usize },
    Completion { document: String, line: usize, character: usize, trigger: Option<String> },
    ResolveCompletionItem,
}

pub enum RequestView {
    Hover { document: Seq<char>, line: nat, character: nat },
    Completion {
        document: Seq<char>,
        line: nat,
        character: nat,
        trigger: Option<Seq<char>>,
    },
    ResolveCompletionItem,
}

impl View for Request {
    type V = RequestView;

    open spec fn view(&self) -> RequestView {
        match self {
            Request::Hover { document, line, character } => RequestView::Hover {
                document: document@,
                line: *line as nat,
                character: *character as nat,
            },
            Request::Completion { document, line, character, trigger } => RequestView::Completion {
                document: document@,
                line: *line as nat,
                character: *character as nat,
                trigger: match trigger {
                    Some(t) => Some(t@),
                    None => None,
                },
            },
            Request::ResolveCompletionItem => RequestView::ResolveCompletionItem,
        }
    }
}

/// The answer to a request.
pub enum Reply {
    Hover(Option<String>),
    Completion(Vec<CompletionCandidate>),
    Empty,
}

pub enum ReplyView {
    Hover(Option<Seq<char>>),
    Completion(Seq<(Seq<char>, Seq<char>)>),
    Empty,
}

impl View for Reply {
    type V = ReplyView;

    open spec fn view(&self) -> ReplyView {
        match self {
            Reply::Hover(h) => ReplyView::Hover(
                match h {
                    Some(s) => Some(s@),
                    None => None,
                },
            ),
            Reply::Completion(cs) => ReplyView::Completion(
                cs@.map_values(|c: CompletionCandidate| c@),
            ),
            Reply::Empty => ReplyView::Empty,
        }
    }
}

/// The reply owed to a request, given the store's entries.
pub open spec fn answer(entries: Seq<StoreEntry>, request: RequestView) -> ReplyView {
    match request {
        RequestView::Hover { document, line, character } => ReplyView::Hover(
            hover_answer(entries, document, line, character),
        ),
        RequestView::Completion { document, line, character, trigger } => ReplyView::Completion(
            completion_answer(entries, document, line, character, triggered_by(trigger)),
        ),
        RequestView::ResolveCompletionItem => ReplyView::Empty,
    }
}

/// Answers a request against the store. Resolving a completion item adds
/// nothing: candidates carry their detail from the start.
pub fn resolve(store: &KnowledgeStore, request: &Request) -> (r: Reply)
    ensures
        r@ == answer(store@, request@),
{
    match request {
        Request::Hover { document, line, character } => {
            Reply::Hover(hover(store, document.as_str(), *line, *character))
        },
        Request::Completion { document, line, character, trigger } => {
            let t = match trigger {
                Some(s) => Some(s.as_str()),
                None => None,
            };
            Reply::Completion(complete(store, document.as_str(), *line, *character, t))
        },
        Request::ResolveCompletionItem => Reply::Empty,
    }
}

} // verus!
