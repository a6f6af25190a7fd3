use std::collections::HashMap;

use outlook_com::application::{
    Action, CountPhase, Event, Folder, ItemsPhase, MailItem, MailItemIterator, Outlook, PathStep,
    Request, SearchPhase,
};
use outlook_com::dispatch::{call, Call, ExceptionInfo, Invocation, InvokeFailure, InvokeRequest};
use outlook_com::variant::{EvilVariant, Handle, TypedVariant, VariantError};
use outlook_com::WinError;

const DISP_E_UNKNOWNNAME: i32 = 0x80020006u32 as i32;

/// A small simulated mail store: objects are numbers, every call goes
/// through name resolution, request packing and reply decoding.
#[derive(Default)]
struct Remote {
    /// Folder -> its "Folders" collection.
    folders: HashMap<usize, usize>,
    /// Folder -> its "Items" collection.
    items: HashMap<usize, usize>,
    /// Collection -> its elements.
    elements: HashMap<usize, Vec<usize>>,
    /// Collection -> position of its cursor.
    cursor: HashMap<usize, usize>,
    /// Object -> its "Name" string.
    names: HashMap<usize, usize>,
    /// String -> its text.
    texts: HashMap<usize, String>,
    /// What "Move" answers.
    move_reply: Option<EvilVariant>,
    /// What "Count" answers.
    count_reply: Option<EvilVariant>,
    calls: Vec<(usize, String)>,
    next_id: usize,
}

impl Remote {
    fn fresh(&mut self) -> usize {
        self.next_id += 0x10;
        0x1000 + self.next_id
    }

    fn folder(&mut self, name: &str) -> usize {
        let f = self.fresh();
        let s = self.fresh();
        self.names.insert(f, s);
        self.texts.insert(s, name.to_string());
        let c = self.fresh();
        self.folders.insert(f, c);
        self.elements.insert(c, Vec::new());
        f
    }

    fn add_child(&mut self, parent: usize, child: usize) {
        let c = self.folders[&parent];
        self.elements.get_mut(&c).unwrap().push(child);
    }

    fn with_items(&mut self, folder: usize, n: usize) -> Vec<usize> {
        let c = self.fresh();
        let mut all = Vec::new();
        for _ in 0..n {
            all.push(self.fresh());
        }
        self.items.insert(folder, c);
        self.elements.insert(c, all.clone());
        all
    }

    fn lookup(&self, member: &str) -> Result<i32, i32> {
        match member {
            "Folders" => Ok(1),
            "Items" => Ok(2),
            "GetFirst" => Ok(3),
            "GetNext" => Ok(4),
            "Name" => Ok(5),
            "Count" => Ok(6),
            "Move" => Ok(7),
            _ => Err(DISP_E_UNKNOWNNAME),
        }
    }

    fn invoke(&mut self, object: usize, req: InvokeRequest) -> Result<EvilVariant, InvokeFailure> {
        let fail = InvokeFailure { error: -1, exception: ExceptionInfo::default() };
        let null = EvilVariant::new(9, 0);
        match req.dispid {
            1 => Ok(self.folders.get(&object).map_or(null, |c| EvilVariant::new(9, *c))),
            2 => Ok(self.items.get(&object).map_or(null, |c| EvilVariant::new(9, *c))),
            3 | 4 => {
                let elems = self.elements.get(&object).ok_or(fail)?;
                let pos = if req.dispid == 3 { 0 } else { self.cursor[&object] + 1 };
                self.cursor.insert(object, pos);
                Ok(EvilVariant::new(9, elems.get(pos).copied().unwrap_or(0)))
            },
            5 => Ok(EvilVariant::new(8, self.names.get(&object).copied().unwrap_or(0))),
            6 => self.count_reply.ok_or(fail),
            7 => {
                assert_eq!(req.flags, 9);
                assert_eq!(req.params.rgvarg.len(), 1);
                assert_eq!(req.params.rgvarg[0].vt, 9);
                self.move_reply.ok_or(fail)
            },
            _ => Err(fail),
        }
    }

    fn answer(&mut self, req: Request) -> Result<TypedVariant, WinError> {
        let Request { object, call: c } = req;
        let name = c.member.clone();
        self.calls.push((object.0, name.clone()));
        let invoke = c.request(self.lookup(&name))?;
        let raw = self.invoke(object.0, invoke);
        call(&name, raw)
    }

    fn event(&mut self, a: Action<impl Sized>) -> Event {
        match a {
            Action::Invoke(req) => Event::Reply(self.answer(req)),
            Action::ReadString(h) => Event::Text(self.texts[&h.0].clone()),
            Action::Done(_) => unreachable!(),
        }
    }
}

fn find(remote: &mut Remote, parent: usize, name: &str) -> Result<Option<Folder>, WinError> {
    let (mut search, mut action) = Folder(Handle(parent)).get_subfolder(name);
    loop {
        if let Action::Done(r) = action {
            assert_eq!(search.phase, SearchPhase::Finished);
            return r;
        }
        let event = remote.event(action);
        action = search.resume(event);
    }
}

fn resolve(remote: &mut Remote, root: usize, path: &[&str]) -> Result<Option<Folder>, WinError> {
    let outlook = Outlook { app: Handle(1), namespace: Handle(root) };
    let (mut walk, mut step) = outlook.get_folder(path.iter().map(|s| s.to_string()).collect());
    loop {
        match step {
            PathStep::Lookup { parent, name } => {
                let found = find(remote, parent.0 .0, &name);
                step = walk.next(found);
            },
            PathStep::Done(r) => return r,
        }
    }
}

fn mail_store() -> (Remote, usize, usize, usize) {
    let mut r = Remote::default();
    let root = r.folder("root");
    let inbox = r.folder("Inbox");
    let drafts = r.folder("Drafts");
    r.add_child(root, drafts);
    r.add_child(root, inbox);
    (r, root, inbox, drafts)
}

#[test]
fn find_inbox() {
    let (mut r, root, inbox, drafts) = mail_store();
    assert_eq!(find(&mut r, root, "Inbox"), Ok(Some(Folder(Handle(inbox)))));
    assert_eq!(find(&mut r, root, "Drafts"), Ok(Some(Folder(Handle(drafts)))));
}

#[test]
fn find_takes_first_match() {
    let (mut r, root, inbox, _) = mail_store();
    let second = r.folder("Inbox");
    r.add_child(root, second);
    assert_eq!(find(&mut r, root, "Inbox"), Ok(Some(Folder(Handle(inbox)))));
}

#[test]
fn find_missing_is_not_an_error() {
    let (mut r, root, _, _) = mail_store();
    assert_eq!(find(&mut r, root, "Outbox"), Ok(None));
    assert_eq!(find(&mut r, root, "inbox"), Ok(None));
}

#[test]
fn find_in_empty_folder() {
    let mut r = Remote::default();
    let root = r.folder("root");
    assert_eq!(find(&mut r, root, "Inbox"), Ok(None));
    let names: Vec<String> = r.calls.iter().map(|c| c.1.clone()).collect();
    assert_eq!(names, vec!["Folders".to_string(), "GetFirst".to_string()]);
}

#[test]
fn find_stops_at_the_match() {
    let (mut r, root, _, _) = mail_store();
    let later = r.folder("Archive");
    r.add_child(root, later);
    find(&mut r, root, "Inbox").unwrap();
    let names: Vec<&str> = r.calls.iter().map(|c| c.1.as_str()).collect();
    assert_eq!(names, vec!["Folders", "GetFirst", "Name", "GetNext", "Name"]);
}

#[test]
fn find_reports_wrong_collection_kind() {
    let (mut r, root, _, _) = mail_store();
    let (mut search, _) = Folder(Handle(root)).get_subfolder("Inbox");
    let a = search.resume(Event::Reply(Ok(TypedVariant::Int32(3))));
    match a {
        Action::Done(Err(WinError::VariantError(VariantError::Mismatch { method, result }))) => {
            assert_eq!(method, "Folders");
            assert_eq!(result, TypedVariant::Int32(3));
        },
        _ => panic!("expected a mismatch"),
    }
    let _ = &mut r;
}

#[test]
fn find_passes_failures_on() {
    let (mut search, _) = Folder(Handle(5)).get_subfolder("Inbox");
    let a = search.resume(Event::Reply(Err(WinError::Internal(-3))));
    assert!(matches!(a, Action::Done(Err(WinError::Internal(-3)))));
    assert_eq!(search.phase, SearchPhase::Finished);
}

#[test]
fn path_resolves_both_names() {
    let (mut r, root, inbox, _) = mail_store();
    let sub = r.folder("B");
    r.add_child(inbox, sub);
    let a = r.folder("A");
    let b = r.folder("B");
    r.add_child(root, a);
    r.add_child(a, b);
    assert_eq!(resolve(&mut r, root, &["A", "B"]), Ok(Some(Folder(Handle(b)))));
    assert_eq!(resolve(&mut r, root, &["Inbox", "B"]), Ok(Some(Folder(Handle(sub)))));
    assert_eq!(resolve(&mut r, root, &["Inbox"]), Ok(Some(Folder(Handle(inbox)))));
}

#[test]
fn path_with_missing_child_is_not_found() {
    let (mut r, root, _, _) = mail_store();
    let a = r.folder("A");
    r.add_child(root, a);
    assert_eq!(resolve(&mut r, root, &["A", "B"]), Ok(None));
}

#[test]
fn path_with_missing_first_name_is_not_found() {
    let (mut r, root, _, _) = mail_store();
    let a = r.folder("A");
    let b = r.folder("B");
    r.add_child(a, b);
    assert_eq!(resolve(&mut r, root, &["A", "B"]), Ok(None));
}

#[test]
fn path_error_ends_resolution() {
    let outlook = Outlook { app: Handle(1), namespace: Handle(2) };
    let (mut walk, _) = outlook.get_folder(vec!["A".to_string(), "B".to_string()]);
    let step = walk.next(Err(WinError::Internal(-9)));
    assert!(matches!(step, PathStep::Done(Err(WinError::Internal(-9)))));
}

fn collect(remote: &mut Remote, folder: usize) -> Result<Vec<MailItem>, WinError> {
    let (mut scan, mut action) = Folder(Handle(folder)).emails();
    loop {
        match action {
            Action::Invoke(req) => {
                let reply = remote.answer(req);
                action = scan.resume(reply);
            },
            Action::ReadString(_) => unreachable!(),
            Action::Done(r) => {
                assert_eq!(scan.phase, ItemsPhase::Finished);
                return r;
            },
        }
    }
}

#[test]
fn iteration_yields_every_item_then_ends() {
    let (mut r, _, inbox, _) = mail_store();
    let all = r.with_items(inbox, 3);
    let got = collect(&mut r, inbox).unwrap();
    let want: Vec<MailItem> = all.iter().map(|h| MailItem(Handle(*h))).collect();
    assert_eq!(got, want);
    let names: Vec<&str> = r.calls.iter().map(|c| c.1.as_str()).collect();
    assert_eq!(names, vec!["Items", "GetFirst", "GetNext", "GetNext", "GetNext"]);
}

#[test]
fn iteration_over_empty_collection() {
    let (mut r, _, inbox, _) = mail_store();
    r.with_items(inbox, 0);
    assert_eq!(collect(&mut r, inbox), Ok(Vec::new()));
}

#[test]
fn iteration_reports_wrong_element_kind() {
    let (mut scan, _) = Folder(Handle(5)).emails();
    let _ = scan.resume(Ok(TypedVariant::Dispatch(Handle(6))));
    let a = scan.resume(Ok(TypedVariant::Int32(1)));
    match a {
        Action::Done(Err(WinError::VariantError(VariantError::Mismatch { method, result }))) => {
            assert_eq!(method, "GetFirst");
            assert_eq!(result, TypedVariant::Int32(1));
        },
        _ => panic!("expected a mismatch"),
    }
}

#[test]
fn iterator_calls_first_then_next() {
    let mut it = MailItemIterator::new(Handle(0x70));
    let c1 = it.next_call();
    let c2 = it.next_call();
    let c3 = it.next_call();
    assert_eq!(c1.object, Handle(0x70));
    assert_eq!(c1.call.member, "GetFirst");
    assert_eq!(c2.call.member, "GetNext");
    assert_eq!(c3.call.member, "GetNext");
}

#[test]
fn iterator_reply_meaning() {
    assert_eq!(
        MailItemIterator::next("GetFirst", Ok(TypedVariant::Dispatch(Handle(3)))),
        Ok(Some(MailItem(Handle(3))))
    );
    assert_eq!(
        MailItemIterator::next("GetNext", Err(WinError::VariantError(VariantError::NullPointer))),
        Ok(None)
    );
    assert_eq!(
        MailItemIterator::next("GetNext", Err(WinError::Internal(4))),
        Err(WinError::Internal(4))
    );
    assert!(matches!(
        MailItemIterator::next("GetNext", Ok(TypedVariant::Empty)),
        Err(WinError::VariantError(VariantError::Mismatch { .. }))
    ));
}

#[test]
fn items_cursor_from_reply() {
    let it = Folder::iter(Ok(TypedVariant::Dispatch(Handle(8)))).unwrap();
    assert_eq!(it.items, Handle(8));
    assert!(!it.started);
    assert!(Folder::iter(Ok(TypedVariant::Int32(0))).is_err());
}

#[test]
fn move_with_mismatch() {
    let (mut r, _, inbox, drafts) = mail_store();
    let items = r.with_items(inbox, 1);
    let s = r.fresh();
    r.texts.insert(s, "moved".to_string());
    r.move_reply = Some(EvilVariant::new(8, s));
    let item = MailItem(Handle(items[0]));
    let reply = r.answer(item.move_to(&Folder(Handle(drafts))));
    match MailItem::moved(reply) {
        Err(WinError::VariantError(VariantError::Mismatch { method, result })) => {
            assert_eq!(method, "Move");
            assert_eq!(result, TypedVariant::Bstr(Handle(s)));
            assert_eq!(r.texts[&s], "moved");
        },
        other => panic!("expected a mismatch, got {:?}", other),
    }
}

#[test]
fn move_returns_relocated_item() {
    let (mut r, _, inbox, drafts) = mail_store();
    let items = r.with_items(inbox, 1);
    r.move_reply = Some(EvilVariant::new(9, 0x7770));
    let req = MailItem(Handle(items[0])).move_to(&Folder(Handle(drafts)));
    assert_eq!(req.call.args, vec![TypedVariant::Dispatch(Handle(drafts))]);
    let reply = r.answer(req);
    assert_eq!(MailItem::moved(reply), Ok(MailItem(Handle(0x7770))));
}

#[test]
fn string_properties() {
    let item = MailItem(Handle(0x30));
    assert_eq!(item.subject().call.member, "Subject");
    assert_eq!(item.body().call.member, "Body");
    assert_eq!(item.body().object, Handle(0x30));
    assert_eq!(MailItem::string_reply("Subject", Ok(TypedVariant::Bstr(Handle(2)))), Ok(Handle(2)));
    assert!(matches!(
        MailItem::string_reply("Subject", Ok(TypedVariant::Int32(2))),
        Err(WinError::VariantError(VariantError::Mismatch { .. }))
    ));
}

fn count(remote: &mut Remote, folder: usize) -> Option<usize> {
    let (mut c, mut action) = Folder(Handle(folder)).count();
    loop {
        match action {
            Action::Invoke(req) => {
                let reply = remote.answer(req);
                action = c.resume(reply);
            },
            Action::ReadString(_) => unreachable!(),
            Action::Done(n) => {
                assert_eq!(c.phase, CountPhase::Finished);
                return n;
            },
        }
    }
}

#[test]
fn count_cases() {
    let (mut r, root, inbox, _) = mail_store();
    r.with_items(inbox, 2);
    r.count_reply = Some(EvilVariant::new(3, 2));
    assert_eq!(count(&mut r, inbox), Some(2));
    r.count_reply = Some(EvilVariant::new(13, 0));
    assert_eq!(count(&mut r, inbox), Some(0));
    r.count_reply = Some(EvilVariant::new(8, 5));
    assert_eq!(count(&mut r, inbox), None);
    r.count_reply = None;
    assert_eq!(count(&mut r, inbox), None);
    assert_eq!(count(&mut r, root), None);
}

#[test]
fn subfolder_names_in_order() {
    let (mut r, root, _, _) = mail_store();
    let (mut scan, mut action) = Folder(Handle(root)).subfolder_names();
    let names = loop {
        if let Action::Done(n) = action {
            break n;
        }
        let event = r.event(action);
        action = scan.resume(event);
    };
    assert_eq!(names, Ok(vec!["Drafts".to_string(), "Inbox".to_string()]));
}

#[test]
fn outlook_from_namespace_reply() {
    let o = Outlook::new(Handle(1), Ok(TypedVariant::Dispatch(Handle(2)))).unwrap();
    assert_eq!(o, Outlook { app: Handle(1), namespace: Handle(2) });
    assert!(Outlook::new(Handle(1), Ok(TypedVariant::Empty)).is_err());
    assert_eq!(Outlook::new(Handle(1), Err(WinError::Internal(1))), Err(WinError::Internal(1)));
}

#[test]
fn unknown_member_is_a_resolution_error() {
    let mut r = Remote::default();
    let reply = r.answer(Request { object: Handle(1), call: Call::prop("Nope") });
    assert!(matches!(
        reply,
        Err(WinError::DispatchError(outlook_com::dispatch::DispatchError::DispidError { .. }))
    ));
}

#[test]
fn move_is_a_by_reference_call() {
    let req = MailItem(Handle(0x20)).move_to(&Folder(Handle(0x40)));
    assert_eq!(req.object, Handle(0x20));
    assert_eq!(req.call.member, "Move");
    assert_eq!(req.call.flag, Invocation::MethodByref);
    assert_eq!(req.call.flag.flags(), 9);
    assert_eq!(req.call.args, vec![TypedVariant::Dispatch(Handle(0x40))]);
    let sent = req.call.request(Ok(7)).unwrap();
    assert_eq!(sent.flags, 9);
    assert_eq!(sent.params.rgvarg, vec![EvilVariant::new(9, 0x40)]);
}

#[test]
fn find_first_match_among_others() {
    let mut r = Remote::default();
    let root = r.folder("root");
    let archive = r.folder("Archive");
    let inbox = r.folder("Inbox");
    let sent = r.folder("Sent");
    let drafts = r.folder("Drafts");
    let inbox2 = r.folder("Inbox");
    let inbox_long = r.folder("Inbox2");
    for f in [archive, inbox_long, sent, inbox, drafts, inbox2] {
        r.add_child(root, f);
    }
    assert_eq!(find(&mut r, root, "Inbox"), Ok(Some(Folder(Handle(inbox)))));
    assert_eq!(find(&mut r, root, "Drafts"), Ok(Some(Folder(Handle(drafts)))));
    assert_eq!(find(&mut r, root, "Inbox2"), Ok(Some(Folder(Handle(inbox_long)))));
    assert_eq!(find(&mut r, root, "Inbo"), Ok(None));
}
