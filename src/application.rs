//! Mail folders and items over the dispatch layer.
//!
//! Each operation is a small state machine: it names the next remote call
//! (or string read) in an [`Action`], and is resumed with what came back.
use vstd::prelude::*;

use crate::dispatch::{decoded_reply, Call, Invocation};
use crate::variant::{EvilVariant, Handle, TypedVariant, VariantError, VT_DISPATCH};
use crate::{is_mismatch, mismatch, WinError};

verus! {

/// A remote call to make: `call` invoked on `object`.
pub struct Request {
    pub object: Handle,
    pub call: Call,
}

/// What an operation asks of its caller next.
pub enum Action<T> {
    /// Make the call and resume with its decoded reply.
    Invoke(Request),
    /// Read the string the handle points to and resume with its text.
    ReadString(Handle),
    /// The operation is over, with this result.
    Done(T),
}

/// What the caller hands back to a waiting operation.
pub enum Event {
    Reply(Result<TypedVariant, WinError>),
    Text(String),
}

/// `a` asks for `member` to be invoked on `object` as `flag`, without arguments.
pub open spec fn invokes<T>(a: Action<T>, object: Handle, member: Seq<char>, flag: Invocation) -> bool {
    &&& a matches Action::Invoke(req)
    &&& req.object == object
    &&& req.call.member@ == member
    &&& req.call.flag == flag
    &&& req.call.args@.len() == 0
    &&& !req.call.named
}

/// The cursor member that fetches the next element: the first one, or the one after.
pub open spec fn cursor_member(first: bool) -> Seq<char> {
    if first {
        "GetFirst"@
    } else {
        "GetNext"@
    }
}

/// Reading an element off a collection cursor: a dispatch handle is the
/// element, "no value" is the end, any other value or failure is an error.
pub open spec fn cursor_reply_ok(
    reply: Result<TypedVariant, WinError>,
    method: Seq<char>,
    r: Result<Option<Handle>, WinError>,
) -> bool {
    match reply {
        Ok(TypedVariant::Dispatch(h)) => r == Ok::<Option<Handle>, WinError>(Some(h)),
        Ok(v) => r matches Err(e) && is_mismatch(e, method, v),
        Err(WinError::VariantError(VariantError::NullPointer)) => r == Ok::<
            Option<Handle>,
            WinError,
        >(None),
        Err(e) => r == Err::<Option<Handle>, WinError>(e),
    }
}

fn cursor_call(collection: Handle, first: bool) -> (r: Request)
    ensures
        r.object == collection,
        r.call.member@ == cursor_member(first),
        r.call.flag == Invocation::Method,
        r.call.args@.len() == 0,
        !r.call.named,
{
    if first {
        Request { object: collection, call: Call::method("GetFirst") }
    } else {
        Request { object: collection, call: Call::method("GetNext") }
    }
}

/// Interprets the reply to a cursor call named `method`.
pub fn cursor_reply(method: &str, reply: Result<TypedVariant, WinError>) -> (r: Result<
    Option<Handle>,
    WinError,
>)
    ensures
        cursor_reply_ok(reply, method@, r),
{
    match reply {
        Ok(TypedVariant::Dispatch(h)) => Ok(Some(h)),
        Ok(v) => Err(mismatch(method, v)),
        Err(WinError::VariantError(VariantError::NullPointer)) => Ok(None),
        Err(e) => Err(e),
    }
}

/// Takes a reply to `method` that must be a dispatch handle.
pub fn expect_dispatch(method: &str, reply: Result<TypedVariant, WinError>) -> (r: Result<
    Handle,
    WinError,
>)
    ensures
        match reply {
            Ok(TypedVariant::Dispatch(h)) => r == Ok::<Handle, WinError>(h),
            Ok(v) => r matches Err(e) && is_mismatch(e, method@, v),
            Err(e) => r == Err::<Handle, WinError>(e),
        },
{
    match reply {
        Ok(TypedVariant::Dispatch(h)) => Ok(h),
        Ok(v) => Err(mismatch(method, v)),
        Err(e) => Err(e),
    }
}

/// Takes a reply to `method` that must be a string handle.
pub fn expect_string(method: &str, reply: Result<TypedVariant, WinError>) -> (r: Result<
    Handle,
    WinError,
>)
    ensures
        match reply {
            Ok(TypedVariant::Bstr(h)) => r == Ok::<Handle, WinError>(h),
            Ok(v) => r matches Err(e) && is_mismatch(e, method@, v),
            Err(e) => r == Err::<Handle, WinError>(e),
        },
{
    match reply {
        Ok(TypedVariant::Bstr(h)) => Ok(h),
        Ok(v) => Err(mismatch(method, v)),
        Err(e) => Err(e),
    }
}

/// A mail item.
#[derive(Clone, Copy, Debug, PartialEq, Eq, Structural)]
pub struct MailItem(pub Handle);

/// Walks a folder's item collection, one element per call.
pub struct MailItemIterator {
    pub items: Handle,
    /// Whether the first element has been asked for.
    pub started: bool,
}

impl MailItemIterator {
    pub fn new(items: Handle) -> (r: MailItemIterator)
        ensures
            r.items == items,
            !r.started,
    {
        MailItemIterator { items, started: false }
    }

    /// The call that fetches the next element: the first one on the first
    /// use, the one after on every later use.
    pub fn next_call(&mut self) -> (r: Request)
        ensures
            final(self).items == old(self).items,
            final(self).started,
            r.object == old(self).items,
            r.call.member@ == cursor_member(!old(self).started),
            r.call.flag == Invocation::Method,
            r.call.args@.len() == 0,
    {
        let first = !self.started;
        self.started = true;
        cursor_call(self.items, first)
    }

    /// Interprets the reply to the call `next_call` named `method`: the next
    /// item, `None` at the end, or the error.
    pub fn next(method: &str, reply: Result<TypedVariant, WinError>) -> (r: Result<
        Option<MailItem>,
        WinError,
    >)
        ensures
            match reply {
                Ok(TypedVariant::Dispatch(h)) => r matches Ok(Some(m)) && m.0 == h,
                Ok(v) => r matches Err(e) && is_mismatch(e, method@, v),
                Err(WinError::VariantError(VariantError::NullPointer)) => r matches Ok(None),
                Err(e) => r == Err::<Option<MailItem>, WinError>(e),
            },
    {
        match cursor_reply(method, reply) {
            Ok(Some(h)) => Ok(Some(MailItem(h))),
            Ok(None) => Ok(None),
            Err(e) => Err(e),
        }
    }
}


/// A mail folder.
#[derive(Clone, Copy, Debug, PartialEq, Eq, Structural)]
pub struct Folder(pub Handle);

/// Where a search for a subfolder by name stands.
#[derive(Clone, Copy, Debug, PartialEq, Eq, Structural)]
pub enum SearchPhase {
    /// Waiting for the parent's "Folders" collection.
    Folders,
    /// Waiting for a candidate from the cursor; `first` tells which call was made.
    Candidate { folders: Handle, first: bool },
    /// Waiting for the candidate's "Name".
    Name { folders: Handle, candidate: Handle },
    /// Waiting for the text of the candidate's name.
    Text { folders: Handle, candidate: Handle },
    Finished,
}

/// A linear scan of a folder's subfolders for the first one named `target`.
pub struct FolderSearch {
    pub target: String,
    pub phase: SearchPhase,
}

/// Whether `event` is what a search in `phase` waits for.
pub open spec fn search_awaits(phase: SearchPhase, event: Event) -> bool {
    &&& phase !is Finished
    &&& (phase is Text <==> event is Text)
}

/// One step of a subfolder search for `target`: from `phase`, on `event`,
/// to `next`, asking `a`. The first exact match wins; the end of the
/// collection means "not found"; anything else unexpected is an error.
pub open spec fn search_step(
    target: Seq<char>,
    phase: SearchPhase,
    event: Event,
    next: SearchPhase,
    a: Action<Result<Option<Folder>, WinError>>,
) -> bool {
    match phase {
        SearchPhase::Folders => match event {
            Event::Reply(Ok(TypedVariant::Dispatch(f))) => {
                &&& next == (SearchPhase::Candidate { folders: f, first: true })
                &&& invokes(a, f, "GetFirst"@, Invocation::Method)
            },
            Event::Reply(Ok(v)) => {
                &&& next is Finished
                &&& a matches Action::Done(Err(e)) && is_mismatch(e, "Folders"@, v)
            },
            Event::Reply(Err(e)) => next is Finished && a == Action::<
                Result<Option<Folder>, WinError>,
            >::Done(Err(e)),
            Event::Text(_) => false,
        },
        SearchPhase::Candidate { folders, first } => match event {
            Event::Reply(Ok(TypedVariant::Dispatch(c))) => {
                &&& next == (SearchPhase::Name { folders, candidate: c })
                &&& invokes(a, c, "Name"@, Invocation::PropertyGet)
            },
            Event::Reply(Ok(v)) => {
                &&& next is Finished
                &&& a matches Action::Done(Err(e)) && is_mismatch(e, cursor_member(first), v)
            },
            Event::Reply(Err(WinError::VariantError(VariantError::NullPointer))) => {
                &&& next is Finished
                &&& a == Action::<Result<Option<Folder>, WinError>>::Done(Ok(None))
            },
            Event::Reply(Err(e)) => next is Finished && a == Action::<
                Result<Option<Folder>, WinError>,
            >::Done(Err(e)),
            Event::Text(_) => false,
        },
        SearchPhase::Name { folders, candidate } => match event {
            Event::Reply(Ok(TypedVariant::Bstr(t))) => {
                &&& next == (SearchPhase::Text { folders, candidate })
                &&& a == Action::<Result<Option<Folder>, WinError>>::ReadString(t)
            },
            Event::Reply(Ok(v)) => {
                &&& next is Finished
                &&& a matches Action::Done(Err(e)) && is_mismatch(e, "Name"@, v)
            },
            Event::Reply(Err(e)) => next is Finished && a == Action::<
                Result<Option<Folder>, WinError>,
            >::Done(Err(e)),
            Event::Text(_) => false,
        },
        SearchPhase::Text { folders, candidate } => match event {
            Event::Text(s) => if s@ == target {
                &&& next is Finished
                &&& a == Action::<Result<Option<Folder>, WinError>>::Done(
                    Ok(Some(Folder(candidate))),
                )
            } else {
                &&& next == (SearchPhase::Candidate { folders, first: false })
                &&& invokes(a, folders, "GetNext"@, Invocation::Method)
            },
            Event::Reply(_) => false,
        },
        SearchPhase::Finished => false,
    }
}

impl FolderSearch {
    /// Resumes the search with what its last action brought back.
    pub fn resume(&mut self, event: Event) -> (r: Action<Result<Option<Folder>, WinError>>)
        requires
            search_awaits(old(self).phase, event),
        ensures
            final(self).target == old(self).target,
            search_step(old(self).target@, old(self).phase, event, final(self).phase, r),
    {
        match self.phase {
            SearchPhase::Folders => {
                let reply = match event {
                    Event::Reply(reply) => reply,
                    Event::Text(_) => {
                        proof {
                            assert(false);
                        }
                        return Action::Done(Ok(None));
                    },
                };
                match expect_dispatch("Folders", reply) {
                    Ok(f) => {
                        self.phase = SearchPhase::Candidate { folders: f, first: true };
                        Action::Invoke(cursor_call(f, true))
                    },
                    Err(e) => {
                        self.phase = SearchPhase::Finished;
                        Action::Done(Err(e))
                    },
                }
            },
            SearchPhase::Candidate { folders, first } => {
                let reply = match event {
                    Event::Reply(reply) => reply,
                    Event::Text(_) => {
                        proof {
                            assert(false);
                        }
                        return Action::Done(Ok(None));
                    },
                };
                let method = if first {
                    "GetFirst"
                } else {
                    "GetNext"
                };
                match cursor_reply(method, reply) {
                    Ok(Some(c)) => {
                        self.phase = SearchPhase::Name { folders, candidate: c };
                        Action::Invoke(Request { object: c, call: Call::prop("Name") })
                    },
                    Ok(None) => {
                        self.phase = SearchPhase::Finished;
                        Action::Done(Ok(None))
                    },
                    Err(e) => {
                        self.phase = SearchPhase::Finished;
                        Action::Done(Err(e))
                    },
                }
            },
            SearchPhase::Name { folders, candidate } => {
                let reply = match event {
                    Event::Reply(reply) => reply,
                    Event::Text(_) => {
                        proof {
                            assert(false);
                        }
                        return Action::Done(Ok(None));
                    },
                };
                match expect_string("Name", reply) {
                    Ok(t) => {
                        self.phase = SearchPhase::Text { folders, candidate };
                        Action::ReadString(t)
                    },
                    Err(e) => {
                        self.phase = SearchPhase::Finished;
                        Action::Done(Err(e))
                    },
                }
            },
            SearchPhase::Text { folders, candidate } => {
                let name = match event {
                    Event::Text(name) => name,
                    Event::Reply(_) => {
                        proof {
                            assert(false);
                        }
                        return Action::Done(Ok(None));
                    },
                };
                if name == self.target {
                    self.phase = SearchPhase::Finished;
                    Action::Done(Ok(Some(Folder(candidate))))
                } else {
                    self.phase = SearchPhase::Candidate { folders, first: false };
                    Action::Invoke(cursor_call(folders, false))
                }
            },
            SearchPhase::Finished => {
                proof {
                    assert(false);
                }
                Action::Done(Ok(None))
            },
        }
    }
}

impl Folder {
    /// Starts a search of this folder's subfolders for the first one named
    /// `folder_name`. Not finding one is an ordinary outcome, `None`.
    pub fn get_subfolder(&self, folder_name: &str) -> (r: (
        FolderSearch,
        Action<Result<Option<Folder>, WinError>>,
    ))
        ensures
            r.0.target@ == folder_name@,
            r.0.phase == SearchPhase::Folders,
            invokes(r.1, self.0, "Folders"@, Invocation::PropertyGet),
    {
        let search = FolderSearch { target: folder_name.to_owned(), phase: SearchPhase::Folders };
        (search, Action::Invoke(Request { object: self.0, call: Call::prop("Folders") }))
    }
}

/// The application and its messaging namespace, whose folders are the roots.
#[derive(Clone, Copy, Debug, PartialEq, Eq, Structural)]
pub struct Outlook {
    pub app: Handle,
    pub namespace: Handle,
}

/// What resolving a folder path asks next.
pub enum PathStep {
    /// Search `parent`'s subfolders for `name` and resume with the outcome.
    Lookup { parent: Folder, name: String },
    /// The path is resolved: the folder, `None` if a name was missing, or the error.
    Done(Result<Option<Folder>, WinError>),
}

/// Resolves a path of folder names, one name at a time.
pub struct FolderPath {
    pub names: Vec<String>,
    /// The name whose lookup is under way.
    pub index: usize,
}

impl Outlook {
    /// The client, from the application object and the reply to its
    /// namespace request; that reply must be an object.
    pub fn new(app: Handle, namespace: Result<TypedVariant, WinError>) -> (r: Result<
        Outlook,
        WinError,
    >)
        ensures
            match namespace {
                Ok(TypedVariant::Dispatch(h)) => r == Ok::<Outlook, WinError>(
                    Outlook { app, namespace: h },
                ),
                Ok(v) => r matches Err(e) && is_mismatch(e, "GetNamespace"@, v),
                Err(e) => r == Err::<Outlook, WinError>(e),
            },
    {
        let namespace = expect_dispatch("GetNamespace", namespace)?;
        Ok(Outlook { app, namespace })
    }

    /// Starts resolving `path_to_folder`: its first name is looked up among
    /// the namespace's folders, each later one under the folder found before.
    pub fn get_folder(&self, path_to_folder: Vec<String>) -> (r: (FolderPath, PathStep))
        requires
            path_to_folder@.len() > 0,
        ensures
            r.0.names@ == path_to_folder@,
            r.0.index == 0,
            r.0.wf(),
            r.1 matches PathStep::Lookup { parent, name } && parent == Folder(self.namespace)
                && name@ == names_view(path_to_folder@)[0],
    {
        let name = path_to_folder[0].clone();
        (FolderPath { names: path_to_folder, index: 0 }, PathStep::Lookup {
            parent: Folder(self.namespace),
            name,
        })
    }
}

/// The texts of a list of names.
pub open spec fn names_view(names: Seq<String>) -> Seq<Seq<char>> {
    names.map_values(|s: String| s@)
}

/// One step of resolving `names`: the lookup of `names[index]` gave `found`;
/// the walk moves to `next_index` and asks `r`. A found folder leads to the
/// next name, or ends the walk after the last; a missing folder ends it with
/// `None`; an error ends it with that error.
pub open spec fn path_step(
    names: Seq<Seq<char>>,
    index: int,
    found: Result<Option<Folder>, WinError>,
    next_index: int,
    r: PathStep,
) -> bool {
    match found {
        Ok(Some(f)) => if index + 1 < names.len() {
            &&& next_index == index + 1
            &&& r matches PathStep::Lookup { parent, name } && parent == f && name@ == names[index
                + 1]
        } else {
            &&& next_index == index
            &&& r matches PathStep::Done(Ok(Some(g))) && g == f
        },
        Ok(None) => {
            &&& next_index == index
            &&& r matches PathStep::Done(Ok(None))
        },
        Err(e) => {
            &&& next_index == index
            &&& r matches PathStep::Done(Err(e2)) && e2 == e
        },
    }
}

impl FolderPath {
    pub open spec fn wf(&self) -> bool {
        self.index < self.names@.len()
    }

    /// Resumes with the outcome of the current lookup. A found folder leads
    /// to the next name, or ends the path; a missing one ends it with `None`.
    pub fn next(&mut self, found: Result<Option<Folder>, WinError>) -> (r: PathStep)
        requires
            old(self).wf(),
        ensures
            final(self).names == old(self).names,
            final(self).wf(),
            path_step(names_view(old(self).names@), old(self).index as int, found, final(self).index as int, r),
    {
        match found {
            Ok(Some(f)) => {
                if self.index < self.names.len() - 1 {
                    self.index = self.index + 1;
                    let name = self.names[self.index].clone();
                    PathStep::Lookup { parent: f, name }
                } else {
                    PathStep::Done(Ok(Some(f)))
                }
            },
            Ok(None) => PathStep::Done(Ok(None)),
            Err(e) => PathStep::Done(Err(e)),
        }
    }
}

/// Where counting a folder's items stands.
#[derive(Clone, Copy, Debug, PartialEq, Eq, Structural)]
pub enum CountPhase {
    /// Waiting for the folder's "Items" collection.
    Items,
    /// Waiting for the collection's "Count".
    Count,
    Finished,
}

/// Counting a folder's items.
pub struct FolderCount {
    pub phase: CountPhase,
}

impl FolderCount {
    /// Resumes with the reply to the last call. An absent count is zero;
    /// a failure, or a reply that is not a collection or an integer, gives
    /// `None`. A negative count is taken as its bit pattern.
    pub fn resume(&mut self, reply: Result<TypedVariant, WinError>) -> (r: Action<Option<usize>>)
        requires
            old(self).phase !is Finished,
        ensures
            old(self).phase is Items ==> match reply {
                Ok(TypedVariant::Dispatch(items)) => final(self).phase is Count && invokes(
                    r,
                    items,
                    "Count"@,
                    Invocation::PropertyGet,
                ),
                _ => final(self).phase is Finished && r == Action::<Option<usize>>::Done(None),
            },
            old(self).phase is Count ==> final(self).phase is Finished && match reply {
                Ok(TypedVariant::Int32(c)) => r == Action::<Option<usize>>::Done(
                    Some(c as usize),
                ),
                Err(WinError::VariantError(VariantError::NullPointer)) => r == Action::<
                    Option<usize>,
                >::Done(Some(0)),
                _ => r == Action::<Option<usize>>::Done(None),
            },
    {
        match self.phase {
            CountPhase::Items => match reply {
                Ok(TypedVariant::Dispatch(items)) => {
                    self.phase = CountPhase::Count;
                    Action::Invoke(Request { object: items, call: Call::prop("Count") })
                },
                _ => {
                    self.phase = CountPhase::Finished;
                    Action::Done(None)
                },
            },
            CountPhase::Count => {
                self.phase = CountPhase::Finished;
                match reply {
                    Ok(TypedVariant::Int32(c)) => Action::Done(Some(c as usize)),
                    Err(WinError::VariantError(VariantError::NullPointer)) => Action::Done(Some(0)),
                    _ => Action::Done(None),
                }
            },
            CountPhase::Finished => {
                proof {
                    assert(false);
                }
                Action::Done(None)
            },
        }
    }
}

/// Where collecting a folder's items stands.
#[derive(Clone, Copy, Debug, PartialEq, Eq, Structural)]
pub enum ItemsPhase {
    /// Waiting for the folder's "Items" collection.
    Items,
    /// Waiting for an element from the cursor; `first` tells which call was made.
    Next { items: Handle, first: bool },
    Finished,
}

/// Collecting every item of a folder, in the collection's order.
pub struct EmailScan {
    pub phase: ItemsPhase,
    pub found: Vec<MailItem>,
}

/// One step of collecting items: from `phase` with `found`, on `reply`, to
/// `next` with `next_found`, asking `a`.
pub open spec fn emails_step(
    phase: ItemsPhase,
    found: Seq<MailItem>,
    reply: Result<TypedVariant, WinError>,
    next: ItemsPhase,
    next_found: Seq<MailItem>,
    a: Action<Result<Vec<MailItem>, WinError>>,
) -> bool {
    match phase {
        ItemsPhase::Items => {
            &&& next_found == found
            &&& match reply {
                Ok(TypedVariant::Dispatch(items)) => {
                    &&& next == (ItemsPhase::Next { items, first: true })
                    &&& invokes(a, items, "GetFirst"@, Invocation::Method)
                },
                Ok(v) => {
                    &&& next is Finished
                    &&& a matches Action::Done(Err(e)) && is_mismatch(e, "Items"@, v)
                },
                Err(e) => next is Finished && a == Action::<Result<Vec<MailItem>, WinError>>::Done(
                    Err(e),
                ),
            }
        },
        ItemsPhase::Next { items, first } => match reply {
            Ok(TypedVariant::Dispatch(m)) => {
                &&& next == (ItemsPhase::Next { items, first: false })
                &&& next_found == found.push(MailItem(m))
                &&& invokes(a, items, "GetNext"@, Invocation::Method)
            },
            Ok(v) => {
                &&& next is Finished
                &&& a matches Action::Done(Err(e)) && is_mismatch(e, cursor_member(first), v)
            },
            Err(WinError::VariantError(VariantError::NullPointer)) => {
                &&& next is Finished
                &&& a matches Action::Done(Ok(all)) && all@ == found
            },
            Err(e) => next is Finished && a == Action::<Result<Vec<MailItem>, WinError>>::Done(
                Err(e),
            ),
        },
        ItemsPhase::Finished => false,
    }
}

impl EmailScan {
    /// Resumes with the reply to the last call.
    pub fn resume(&mut self, reply: Result<TypedVariant, WinError>) -> (r: Action<
        Result<Vec<MailItem>, WinError>,
    >)
        requires
            old(self).phase !is Finished,
        ensures
            emails_step(
                old(self).phase,
                old(self).found@,
                reply,
                final(self).phase,
                final(self).found@,
                r,
            ),
    {
        match self.phase {
            ItemsPhase::Items => match expect_dispatch("Items", reply) {
                Ok(items) => {
                    self.phase = ItemsPhase::Next { items, first: true };
                    Action::Invoke(cursor_call(items, true))
                },
                Err(e) => {
                    self.phase = ItemsPhase::Finished;
                    Action::Done(Err(e))
                },
            },
            ItemsPhase::Next { items, first } => {
                let method = if first {
                    "GetFirst"
                } else {
                    "GetNext"
                };
                match MailItemIterator::next(method, reply) {
                    Ok(Some(m)) => {
                        self.found.push(m);
                        self.phase = ItemsPhase::Next { items, first: false };
                        Action::Invoke(cursor_call(items, false))
                    },
                    Ok(None) => {
                        self.phase = ItemsPhase::Finished;
                        let mut all: Vec<MailItem> = Vec::new();
                        std::mem::swap(&mut all, &mut self.found);
                        Action::Done(Ok(all))
                    },
                    Err(e) => {
                        self.phase = ItemsPhase::Finished;
                        Action::Done(Err(e))
                    },
                }
            },
            ItemsPhase::Finished => {
                proof {
                    assert(false);
                }
                Action::Done(Ok(Vec::new()))
            },
        }
    }
}

impl Folder {
    /// Starts counting this folder's items.
    pub fn count(&self) -> (r: (FolderCount, Action<Option<usize>>))
        ensures
            r.0.phase is Items,
            invokes(r.1, self.0, "Items"@, Invocation::PropertyGet),
    {
        (FolderCount { phase: CountPhase::Items }, Action::Invoke(
            Request { object: self.0, call: Call::prop("Items") },
        ))
    }

    /// Starts collecting this folder's items.
    pub fn emails(&self) -> (r: (EmailScan, Action<Result<Vec<MailItem>, WinError>>))
        ensures
            r.0.phase is Items,
            r.0.found@.len() == 0,
            invokes(r.1, self.0, "Items"@, Invocation::PropertyGet),
    {
        (EmailScan { phase: ItemsPhase::Items, found: Vec::new() }, Action::Invoke(
            Request { object: self.0, call: Call::prop("Items") },
        ))
    }

    /// The cursor over this folder's items, from the reply to its "Items".
    pub fn iter(reply: Result<TypedVariant, WinError>) -> (r: Result<MailItemIterator, WinError>)
        ensures
            match reply {
                Ok(TypedVariant::Dispatch(items)) => r matches Ok(it) && it.items == items
                    && !it.started,
                Ok(v) => r matches Err(e) && is_mismatch(e, "Items"@, v),
                Err(e) => r == Err::<MailItemIterator, WinError>(e),
            },
    {
        let items = expect_dispatch("Items", reply)?;
        Ok(MailItemIterator::new(items))
    }
}

impl MailItem {
    /// The call that moves this item into `target`. The target is passed by
    /// reference, as a method call with the reference flag, since the remote
    /// side may hand back a relocated handle.
    pub fn move_to(&self, target: &Folder) -> (r: Request)
        ensures
            r.object == self.0,
            r.call.member@ == "Move"@,
            r.call.flag == Invocation::MethodByref,
            r.call.args@ == seq![TypedVariant::Dispatch(target.0)],
            !r.call.named,
    {
        let mut args: Vec<TypedVariant> = Vec::new();
        args.push(TypedVariant::Dispatch(target.0));
        Request { object: self.0, call: Call::new("Move", Invocation::Method.by_ref(), args) }
    }

    /// Interprets the reply to "Move": the item where it now lives.
    pub fn moved(reply: Result<TypedVariant, WinError>) -> (r: Result<MailItem, WinError>)
        ensures
            match reply {
                Ok(TypedVariant::Dispatch(h)) => r == Ok::<MailItem, WinError>(MailItem(h)),
                Ok(v) => r matches Err(e) && is_mismatch(e, "Move"@, v),
                Err(e) => r == Err::<MailItem, WinError>(e),
            },
    {
        let h = expect_dispatch("Move", reply)?;
        Ok(MailItem(h))
    }

    /// The read of the string property `name`.
    pub fn string_property(&self, name: &str) -> (r: Request)
        ensures
            r.object == self.0,
            r.call.member@ == name@,
            r.call.flag == Invocation::PropertyGet,
            r.call.args@.len() == 0,
    {
        Request { object: self.0, call: Call::prop(name) }
    }

    /// The string handle from the reply to reading property `name`.
    pub fn string_reply(name: &str, reply: Result<TypedVariant, WinError>) -> (r: Result<
        Handle,
        WinError,
    >)
        ensures
            match reply {
                Ok(TypedVariant::Bstr(h)) => r == Ok::<Handle, WinError>(h),
                Ok(v) => r matches Err(e) && is_mismatch(e, name@, v),
                Err(e) => r == Err::<Handle, WinError>(e),
            },
    {
        expect_string(name, reply)
    }

    pub fn subject(&self) -> (r: Request)
        ensures
            r.object == self.0,
            r.call.member@ == "Subject"@,
            r.call.flag == Invocation::PropertyGet,
            r.call.args@.len() == 0,
    {
        self.string_property("Subject")
    }

    pub fn body(&self) -> (r: Request)
        ensures
            r.object == self.0,
            r.call.member@ == "Body"@,
            r.call.flag == Invocation::PropertyGet,
            r.call.args@.len() == 0,
    {
        self.string_property("Body")
    }
}

/// Listing the names of a folder's subfolders, in the collection's order.
pub struct NameScan {
    pub phase: SearchPhase,
    pub names: Vec<String>,
}

/// One step of listing subfolder names: from `phase` with `names`, on
/// `event`, to `next` with `next_names`, asking `a`.
pub open spec fn names_step(
    phase: SearchPhase,
    names: Seq<String>,
    event: Event,
    next: SearchPhase,
    next_names: Seq<String>,
    a: Action<Result<Vec<String>, WinError>>,
) -> bool {
    match phase {
        SearchPhase::Folders => {
            &&& next_names == names
            &&& match event {
                Event::Reply(Ok(TypedVariant::Dispatch(f))) => {
                    &&& next == (SearchPhase::Candidate { folders: f, first: true })
                    &&& invokes(a, f, "GetFirst"@, Invocation::Method)
                },
                Event::Reply(Ok(v)) => {
                    &&& next is Finished
                    &&& a matches Action::Done(Err(e)) && is_mismatch(e, "Folders"@, v)
                },
                Event::Reply(Err(e)) => next is Finished && a == Action::<
                    Result<Vec<String>, WinError>,
                >::Done(Err(e)),
                Event::Text(_) => false,
            }
        },
        SearchPhase::Candidate { folders, first } => {
            &&& match event {
                Event::Reply(Ok(TypedVariant::Dispatch(c))) => {
                    &&& next_names == names
                    &&& next == (SearchPhase::Name { folders, candidate: c })
                    &&& invokes(a, c, "Name"@, Invocation::PropertyGet)
                },
                Event::Reply(Ok(v)) => {
                    &&& next is Finished
                    &&& a matches Action::Done(Err(e)) && is_mismatch(e, cursor_member(first), v)
                },
                Event::Reply(Err(WinError::VariantError(VariantError::NullPointer))) => {
                    &&& next is Finished
                    &&& a matches Action::Done(Ok(all)) && all@ == names
                },
                Event::Reply(Err(e)) => next is Finished && a == Action::<
                    Result<Vec<String>, WinError>,
                >::Done(Err(e)),
                Event::Text(_) => false,
            }
        },
        SearchPhase::Name { folders, candidate } => {
            &&& next_names == names
            &&& match event {
                Event::Reply(Ok(TypedVariant::Bstr(t))) => {
                    &&& next == (SearchPhase::Text { folders, candidate })
                    &&& a == Action::<Result<Vec<String>, WinError>>::ReadString(t)
                },
                Event::Reply(Ok(v)) => {
                    &&& next is Finished
                    &&& a matches Action::Done(Err(e)) && is_mismatch(e, "Name"@, v)
                },
                Event::Reply(Err(e)) => next is Finished && a == Action::<
                    Result<Vec<String>, WinError>,
                >::Done(Err(e)),
                Event::Text(_) => false,
            }
        },
        SearchPhase::Text { folders, candidate } => match event {
            Event::Text(s) => {
                &&& next_names == names.push(s)
                &&& next == (SearchPhase::Candidate { folders, first: false })
                &&& invokes(a, folders, "GetNext"@, Invocation::Method)
            },
            Event::Reply(_) => false,
        },
        SearchPhase::Finished => false,
    }
}

impl NameScan {
    /// Resumes the listing with what its last action brought back.
    pub fn resume(&mut self, event: Event) -> (r: Action<Result<Vec<String>, WinError>>)
        requires
            search_awaits(old(self).phase, event),
        ensures
            names_step(
                old(self).phase,
                old(self).names@,
                event,
                final(self).phase,
                final(self).names@,
                r,
            ),
    {
        let reply = match event {
            Event::Text(name) => {
                if let SearchPhase::Text { folders, candidate: _ } = self.phase {
                    self.names.push(name);
                    self.phase = SearchPhase::Candidate { folders, first: false };
                    return Action::Invoke(cursor_call(folders, false));
                } else {
                    proof {
                        assert(false);
                    }
                    return Action::Done(Ok(Vec::new()));
                }
            },
            Event::Reply(reply) => reply,
        };
        match self.phase {
            SearchPhase::Folders => match expect_dispatch("Folders", reply) {
                Ok(f) => {
                    self.phase = SearchPhase::Candidate { folders: f, first: true };
                    Action::Invoke(cursor_call(f, true))
                },
                Err(e) => {
                    self.phase = SearchPhase::Finished;
                    Action::Done(Err(e))
                },
            },
            SearchPhase::Candidate { folders, first } => {
                let method = if first {
                    "GetFirst"
                } else {
                    "GetNext"
                };
                match cursor_reply(method, reply) {
                    Ok(Some(c)) => {
                        self.phase = SearchPhase::Name { folders, candidate: c };
                        Action::Invoke(Request { object: c, call: Call::prop("Name") })
                    },
                    Ok(None) => {
                        self.phase = SearchPhase::Finished;
                        let mut all: Vec<String> = Vec::new();
                        std::mem::swap(&mut all, &mut self.names);
                        Action::Done(Ok(all))
                    },
                    Err(e) => {
                        self.phase = SearchPhase::Finished;
                        Action::Done(Err(e))
                    },
                }
            },
            SearchPhase::Name { folders, candidate } => match expect_string("Name", reply) {
                Ok(t) => {
                    self.phase = SearchPhase::Text { folders, candidate };
                    Action::ReadString(t)
                },
                Err(e) => {
                    self.phase = SearchPhase::Finished;
                    Action::Done(Err(e))
                },
            },
            _ => {
                proof {
                    assert(false);
                }
                Action::Done(Ok(Vec::new()))
            },
        }
    }
}

impl Folder {
    /// Starts listing the names of this folder's subfolders.
    pub fn subfolder_names(&self) -> (r: (NameScan, Action<Result<Vec<String>, WinError>>))
        ensures
            r.0.phase == SearchPhase::Folders,
            r.0.names@.len() == 0,
            invokes(r.1, self.0, "Folders"@, Invocation::PropertyGet),
    {
        (NameScan { phase: SearchPhase::Folders, names: Vec::new() }, Action::Invoke(
            Request { object: self.0, call: Call::prop("Folders") },
        ))
    }
}

/// The decoded reply that the `k`-th cursor call (counting from zero) gets
/// from a collection holding `elems`: the element while there is one, then
/// an object record with a null payload.
pub open spec fn collection_reply(elems: Seq<Handle>, k: int) -> Result<TypedVariant, WinError> {
    decoded_reply(
        EvilVariant::spec_new(
            VT_DISPATCH,
            if 0 <= k < elems.len() {
                elems[k].0
            } else {
                0
            },
        ),
    )
}

/// The items that stand for a sequence of handles.
pub open spec fn items_of(elems: Seq<Handle>) -> Seq<MailItem> {
    elems.map_values(|h: Handle| MailItem(h))
}

/// Collecting the items of a collection of N elements: after each of the
/// first N cursor calls the scan holds exactly the elements seen so far, in
/// order, and asks for the next; the (N+1)-th call ends it without error,
/// with all N items (none for an empty collection).
pub proof fn lemma_iteration_terminates(
    elems: Seq<Handle>,
    k: int,
    items: Handle,
    next: ItemsPhase,
    next_found: Seq<MailItem>,
    a: Action<Result<Vec<MailItem>, WinError>>,
)
    requires
        forall|i: int| 0 <= i < elems.len() ==> (#[trigger] elems[i]).0 != 0,
        0 <= k <= elems.len(),
        emails_step(
            ItemsPhase::Next { items, first: k == 0 },
            items_of(elems.take(k)),
            collection_reply(elems, k),
            next,
            next_found,
            a,
        ),
    ensures
        k < elems.len() ==> {
            &&& next == (ItemsPhase::Next { items, first: false })
            &&& next_found == items_of(elems.take(k + 1))
            &&& invokes(a, items, "GetNext"@, Invocation::Method)
        },
        k == elems.len() ==> {
            &&& next is Finished
            &&& a matches Action::Done(Ok(all)) && all@ == items_of(elems)
        },
{
    if k < elems.len() {
        assert(elems[k].0 != 0);
        assert(elems.take(k + 1) == elems.take(k).push(elems[k]));
        assert(items_of(elems.take(k + 1)) == items_of(elems.take(k)).push(MailItem(elems[k])));
    } else {
        assert(elems.take(k) == elems);
    }
}

/// The folder that `names` leads to from `root`, in a store where
/// `child(p, n)` is the first subfolder of `p` named `n`, if there is one.
pub open spec fn resolve_path(
    child: spec_fn(Handle, Seq<char>) -> Option<Handle>,
    root: Handle,
    names: Seq<Seq<char>>,
) -> Option<Handle>
    decreases names.len(),
{
    if names.len() == 0 {
        Some(root)
    } else {
        match resolve_path(child, root, names.drop_last()) {
            Some(p) => child(p, names.last()),
            None => None,
        }
    }
}

/// What looking up `name` under `parent` gives in that store.
pub open spec fn lookup_in(
    child: spec_fn(Handle, Seq<char>) -> Option<Handle>,
    parent: Folder,
    name: Seq<char>,
) -> Result<Option<Folder>, WinError> {
    match child(parent.0, name) {
        Some(c) => Ok(Some(Folder(c))),
        None => Ok(None),
    }
}

/// Once a prefix of the path leads nowhere, the whole path does.
proof fn lemma_missing_prefix(
    child: spec_fn(Handle, Seq<char>) -> Option<Handle>,
    root: Handle,
    names: Seq<Seq<char>>,
    j: int,
)
    requires
        0 <= j <= names.len(),
        resolve_path(child, root, names.take(j)) is None,
    ensures
        resolve_path(child, root, names) is None,
    decreases names.len() - j,
{
    if j < names.len() {
        assert(names.take(j + 1).drop_last() == names.take(j));
        lemma_missing_prefix(child, root, names, j + 1);
    } else {
        assert(names.take(j) == names);
    }
}

/// Path resolution, step by step: while the walk is at the folder that the
/// first `index` names lead to, answering the lookup of the next name keeps
/// it there for one more name, or ends it with the folder the whole path
/// leads to, or with `None` (not an error) where some name is missing.
pub proof fn lemma_path_resolution(
    child: spec_fn(Handle, Seq<char>) -> Option<Handle>,
    root: Handle,
    names: Seq<Seq<char>>,
    index: int,
    parent: Folder,
    next_index: int,
    r: PathStep,
)
    requires
        0 <= index < names.len(),
        resolve_path(child, root, names.take(index)) == Some(parent.0),
        path_step(names, index, lookup_in(child, parent, names[index]), next_index, r),
    ensures
        r matches PathStep::Lookup { parent: p, name } ==> {
            &&& next_index == index + 1
            &&& name@ == names[next_index]
            &&& resolve_path(child, root, names.take(next_index)) == Some(p.0)
        },
        r matches PathStep::Done(d) ==> d == match resolve_path(child, root, names) {
            Some(h) => Ok::<Option<Folder>, WinError>(Some(Folder(h))),
            None => Ok(None),
        },
{
    assert(names.take(index + 1).drop_last() == names.take(index));
    assert(names.take(index + 1).last() == names[index]);
    if index + 1 == names.len() {
        assert(names.take(index + 1) == names);
    }
    if child(parent.0, names[index]) is None {
        lemma_missing_prefix(child, root, names, index + 1);
    }
}

/// Whether none of the first `k` names is `target`.
pub open spec fn no_match_before(texts: Seq<Seq<char>>, target: Seq<char>, k: int) -> bool {
    forall|i: int| 0 <= i < k ==> texts[i] != target
}

/// Searching subfolders for a name, at the cursor: `elems` are the
/// subfolders in the collection's order. While no earlier name matched, the
/// k-th cursor call leads to reading the k-th subfolder's name; past the end
/// it ends the search with `None`, not an error, and then no name matched.
pub proof fn lemma_search_candidate(
    elems: Seq<Handle>,
    texts: Seq<Seq<char>>,
    target: Seq<char>,
    folders: Handle,
    k: int,
    next: SearchPhase,
    a: Action<Result<Option<Folder>, WinError>>,
)
    requires
        forall|i: int| 0 <= i < elems.len() ==> (#[trigger] elems[i]).0 != 0,
        texts.len() == elems.len(),
        0 <= k <= elems.len(),
        no_match_before(texts, target, k),
        search_step(
            target,
            SearchPhase::Candidate { folders, first: k == 0 },
            Event::Reply(collection_reply(elems, k)),
            next,
            a,
        ),
    ensures
        k < elems.len() ==> {
            &&& next == (SearchPhase::Name { folders, candidate: elems[k] })
            &&& invokes(a, elems[k], "Name"@, Invocation::PropertyGet)
        },
        k == elems.len() ==> {
            &&& next is Finished
            &&& a == Action::<Result<Option<Folder>, WinError>>::Done(Ok(None))
            &&& forall|i: int| 0 <= i < texts.len() ==> texts[i] != target
        },
{
    if k < elems.len() {
        assert(elems[k].0 != 0);
    }
}

/// Searching subfolders for a name, at a name read: while no earlier name
/// matched, the k-th name either ends the search with the k-th subfolder,
/// the first whose name matches exactly, or moves the cursor on with one
/// more name known not to match.
pub proof fn lemma_search_compare(
    elems: Seq<Handle>,
    texts: Seq<Seq<char>>,
    target: Seq<char>,
    folders: Handle,
    k: int,
    name: String,
    next: SearchPhase,
    a: Action<Result<Option<Folder>, WinError>>,
)
    requires
        texts.len() == elems.len(),
        0 <= k < elems.len(),
        no_match_before(texts, target, k),
        name@ == texts[k],
        search_step(
            target,
            SearchPhase::Text { folders, candidate: elems[k] },
            Event::Text(name),
            next,
            a,
        ),
    ensures
        texts[k] == target ==> {
            &&& next is Finished
            &&& a == Action::<Result<Option<Folder>, WinError>>::Done(Ok(Some(Folder(elems[k]))))
        },
        texts[k] != target ==> {
            &&& next == (SearchPhase::Candidate { folders, first: false })
            &&& invokes(a, folders, "GetNext"@, Invocation::Method)
            &&& no_match_before(texts, target, k + 1)
        },
{
}

/// The first of `elems`, from position `k` on, whose name in `texts` is
/// `target`, if there is one.
pub open spec fn first_named(
    elems: Seq<Handle>,
    texts: Seq<Seq<char>>,
    target: Seq<char>,
    k: int,
) -> Option<Handle>
    decreases elems.len() - k,
{
    if k < 0 || k >= elems.len() {
        None
    } else if texts[k] == target {
        Some(elems[k])
    } else {
        first_named(elems, texts, target, k + 1)
    }
}

/// Names that do not match can be skipped.
proof fn lemma_first_named_skip(elems: Seq<Handle>, texts: Seq<Seq<char>>, target: Seq<char>, k: int)
    requires
        0 <= k <= elems.len(),
        texts.len() == elems.len(),
        no_match_before(texts, target, k),
    ensures
        first_named(elems, texts, target, 0) == first_named(elems, texts, target, k),
    decreases k,
{
    if k > 0 {
        lemma_first_named_skip(elems, texts, target, k - 1);
    }
}

/// What `first_named` finds is the first exact match; finding nothing means
/// no name matches.
proof fn lemma_first_named_is_first(
    elems: Seq<Handle>,
    texts: Seq<Seq<char>>,
    target: Seq<char>,
    k: int,
)
    requires
        0 <= k <= elems.len(),
        texts.len() == elems.len(),
        no_match_before(texts, target, k),
    ensures
        first_named(elems, texts, target, k) matches Some(h) ==> exists|i: int|
            0 <= i < elems.len() && texts[i] == target && no_match_before(texts, target, i)
                && h == elems[i],
        first_named(elems, texts, target, k) is None ==> forall|i: int|
            0 <= i < texts.len() ==> texts[i] != target,
    decreases elems.len() - k,
{
    if k < elems.len() && texts[k] != target {
        lemma_first_named_is_first(elems, texts, target, k + 1);
    }
}

/// A store that answers a search: the subfolders `elems` in the collection's
/// order, `folders` the collection, `strs` the names' string handles and
/// `texts` their texts. With the cursor at position `k`, `event` is what the
/// store answers to what a search in `phase` asked.
pub open spec fn store_answer(
    elems: Seq<Handle>,
    strs: Seq<Handle>,
    texts: Seq<Seq<char>>,
    folders: Handle,
    phase: SearchPhase,
    k: int,
    event: Event,
) -> bool {
    match phase {
        SearchPhase::Folders => event == Event::Reply(
            Ok::<TypedVariant, WinError>(TypedVariant::Dispatch(folders)),
        ),
        SearchPhase::Candidate { .. } => event == Event::Reply(collection_reply(elems, k)),
        SearchPhase::Name { .. } => event == Event::Reply(
            Ok::<TypedVariant, WinError>(TypedVariant::Bstr(strs[k])),
        ),
        SearchPhase::Text { .. } => event matches Event::Text(s) && s@ == texts[k],
        SearchPhase::Finished => false,
    }
}

/// Step `j` of a search run against that store: from `phases[j]`, with the
/// cursor at `pos[j]`, the store's answer `events[j]` leads to `phases[j + 1]`
/// and `actions[j + 1]`; the cursor moves on after each name read.
pub open spec fn store_step(
    elems: Seq<Handle>,
    strs: Seq<Handle>,
    texts: Seq<Seq<char>>,
    target: Seq<char>,
    folders: Handle,
    phases: Seq<SearchPhase>,
    actions: Seq<Action<Result<Option<Folder>, WinError>>>,
    events: Seq<Event>,
    pos: Seq<int>,
    j: int,
) -> bool {
    &&& store_answer(elems, strs, texts, folders, phases[j], pos[j], events[j])
    &&& search_step(target, phases[j], events[j], phases[j + 1], actions[j + 1])
    &&& pos[j + 1] == if phases[j] is Text {
        pos[j] + 1
    } else {
        pos[j]
    }
}

/// Where a run stands after each step, at cursor position `k`.
spec fn search_run_inv(
    elems: Seq<Handle>,
    texts: Seq<Seq<char>>,
    target: Seq<char>,
    folders: Handle,
    phase: SearchPhase,
    a: Action<Result<Option<Folder>, WinError>>,
    k: int,
) -> bool {
    match phase {
        SearchPhase::Folders => k == 0 && a !is Done,
        SearchPhase::Candidate { folders: f, first } => {
            &&& f == folders && first == (k == 0)
            &&& 0 <= k <= elems.len() && no_match_before(texts, target, k)
            &&& a !is Done
        },
        SearchPhase::Name { folders: f, candidate } => {
            &&& f == folders && 0 <= k < elems.len() && candidate == elems[k]
            &&& no_match_before(texts, target, k) && a !is Done
        },
        SearchPhase::Text { folders: f, candidate } => {
            &&& f == folders && 0 <= k < elems.len() && candidate == elems[k]
            &&& no_match_before(texts, target, k) && a !is Done
        },
        SearchPhase::Finished => a == Action::<Result<Option<Folder>, WinError>>::Done(
            match first_named(elems, texts, target, 0) {
                Some(h) => Ok(Some(Folder(h))),
                None => Ok(None),
            },
        ),
    }
}

proof fn lemma_search_run_inv(
    elems: Seq<Handle>,
    strs: Seq<Handle>,
    texts: Seq<Seq<char>>,
    target: Seq<char>,
    folders: Handle,
    phases: Seq<SearchPhase>,
    actions: Seq<Action<Result<Option<Folder>, WinError>>>,
    events: Seq<Event>,
    pos: Seq<int>,
    j: int,
)
    requires
        forall|i: int| 0 <= i < elems.len() ==> (#[trigger] elems[i]).0 != 0,
        texts.len() == elems.len(),
        strs.len() == elems.len(),
        0 <= j < phases.len(),
        phases.len() == actions.len(),
        phases.len() == pos.len(),
        events.len() + 1 == phases.len(),
        phases[0] == SearchPhase::Folders,
        actions[0] !is Done,
        pos[0] == 0,
        forall|i: int|
            0 <= i < events.len() ==> #[trigger] store_step(
                elems,
                strs,
                texts,
                target,
                folders,
                phases,
                actions,
                events,
                pos,
                i,
            ),
    ensures
        search_run_inv(elems, texts, target, folders, phases[j], actions[j], pos[j]),
    decreases j,
{
    if j > 0 {
        let i = j - 1;
        lemma_search_run_inv(elems, strs, texts, target, folders, phases, actions, events, pos, i);
        assert(store_step(elems, strs, texts, target, folders, phases, actions, events, pos, i));
        let k = pos[i];
        match phases[i] {
            SearchPhase::Candidate { .. } => {
                if k < elems.len() {
                    assert(elems[k].0 != 0);
                } else {
                    lemma_first_named_skip(elems, texts, target, k);
                }
            },
            SearchPhase::Text { .. } => {
                lemma_first_named_skip(elems, texts, target, k);
            },
            _ => {},
        }
    }
}

/// A subfolder search, run against any collection of named subfolders that
/// answers every call it makes, ends only with the first subfolder, in the
/// collection's order, whose name is exactly the target; or, where no name
/// matches, with `None`, never with an error. The run starts where
/// `get_subfolder` leaves it; `phases[j]` and `actions[j]` are the search's
/// state and request after `j` answers.
pub proof fn lemma_search_finds_first(
    elems: Seq<Handle>,
    strs: Seq<Handle>,
    texts: Seq<Seq<char>>,
    target: Seq<char>,
    folders: Handle,
    phases: Seq<SearchPhase>,
    actions: Seq<Action<Result<Option<Folder>, WinError>>>,
    events: Seq<Event>,
    pos: Seq<int>,
)
    requires
        forall|i: int| 0 <= i < elems.len() ==> (#[trigger] elems[i]).0 != 0,
        texts.len() == elems.len(),
        strs.len() == elems.len(),
        phases.len() == actions.len(),
        phases.len() == pos.len(),
        events.len() + 1 == phases.len(),
        phases[0] == SearchPhase::Folders,
        actions[0] !is Done,
        pos[0] == 0,
        forall|i: int|
            0 <= i < events.len() ==> #[trigger] store_step(
                elems,
                strs,
                texts,
                target,
                folders,
                phases,
                actions,
                events,
                pos,
                i,
            ),
    ensures
        actions.last() matches Action::Done(d) ==> {
            ||| exists|i: int|
                0 <= i < elems.len() && texts[i] == target && no_match_before(texts, target, i)
                    && d == Ok::<Option<Folder>, WinError>(Some(Folder(elems[i])))
            ||| (forall|i: int| 0 <= i < texts.len() ==> texts[i] != target) && d == Ok::<
                Option<Folder>,
                WinError,
            >(None)
        },
{
    let m = phases.len() - 1;
    lemma_search_run_inv(elems, strs, texts, target, folders, phases, actions, events, pos, m);
    lemma_first_named_is_first(elems, texts, target, 0);
}

} // verus!
