//! Identity records: the wire form sent by the authority, the local form the
//! host expects, and the lossless mapping between them.
use vstd::prelude::*;

verus! {

/// An identity record as the remote authority sends it.
#[derive(Clone, Debug)]
pub struct PasswdEntry {
    pub name: String,
    pub passwd: String,
    pub uid: u32,
    pub gid: u32,
    pub gecos: String,
    pub homedir: String,
    pub shell: String,
}

/// An identity record in the shape the host's lookup subsystem expects.
#[derive(Clone, Debug)]
pub struct Passwd {
    pub name: String,
    pub passwd: String,
    pub uid: u32,
    pub gid: u32,
    pub gecos: String,
    pub dir: String,
    pub shell: String,
}

/// The values of a wire record.
pub struct WireRecord {
    pub name: Seq<char>,
    pub passwd: Seq<char>,
    pub uid: u32,
    pub gid: u32,
    pub gecos: Seq<char>,
    pub homedir: Seq<char>,
    pub shell: Seq<char>,
}

/// The values of a local record.
pub struct LocalRecord {
    pub name: Seq<char>,
    pub passwd: Seq<char>,
    pub uid: u32,
    pub gid: u32,
    pub gecos: Seq<char>,
    pub dir: Seq<char>,
    pub shell: Seq<char>,
}

impl View for PasswdEntry {
    type V = WireRecord;

    open spec fn view(&self) -> WireRecord {
        WireRecord {
            name: self.name@,
            passwd: self.passwd@,
            uid: self.uid,
            gid: self.gid,
            gecos: self.gecos@,
            homedir: self.homedir@,
            shell: self.shell@,
        }
    }
}

impl View for Passwd {
    type V = LocalRecord;

    open spec fn view(&self) -> LocalRecord {
        LocalRecord {
            name: self.name@,
            passwd: self.passwd@,
            uid: self.uid,
            gid: self.gid,
            gecos: self.gecos@,
            dir: self.dir@,
            shell: self.shell@,
        }
    }
}

/// The local record that a wire record maps to: every field copied verbatim,
/// the home directory landing in `dir`.
pub open spec fn local_of(w: WireRecord) -> LocalRecord {
    LocalRecord {
        name: w.name,
        passwd: w.passwd,
        uid: w.uid,
        gid: w.gid,
        gecos: w.gecos,
        dir: w.homedir,
        shell: w.shell,
    }
}

/// The inverse of `local_of`.
pub open spec fn wire_of(l: LocalRecord) -> WireRecord {
    WireRecord {
        name: l.name,
        passwd: l.passwd,
        uid: l.uid,
        gid: l.gid,
        gecos: l.gecos,
        homedir: l.dir,
        shell: l.shell,
    }
}

/// Whether `locals` is `wires` mapped record by record, in the same order.
pub open spec fn maps_all(wires: Seq<PasswdEntry>, locals: Seq<Passwd>) -> bool {
    &&& locals.len() == wires.len()
    &&& forall|i: int| 0 <= i < wires.len() ==> #[trigger] locals[i]@ == local_of(wires[i]@)
}

/// Converts a wire record to the local record the host expects.
pub fn passwd_entry_to_passwd(entry: PasswdEntry) -> (r: Passwd)
    ensures
        r@ == local_of(entry@),
{
    Passwd {
        name: entry.name,
        passwd: entry.passwd,
        uid: entry.uid,
        gid: entry.gid,
        gecos: entry.gecos,
        dir: entry.homedir,
        shell: entry.shell,
    }
}

/// Converts every wire record of `entries`, keeping their order.
pub fn passwd_entries_to_passwds(entries: Vec<PasswdEntry>) -> (r: Vec<Passwd>)
    ensures
        maps_all(entries@, r@),
{
    let mut r: Vec<Passwd> = Vec::with_capacity(entries.len());
    let mut i: usize = 0;
    while i < entries.len()
        invariant
            i <= entries@.len(),
            r@.len() == i,
            forall|j: int| 0 <= j < i ==> #[trigger] r@[j]@ == local_of(entries@[j]@),
        decreases entries@.len() - i,
    {
        let e = &entries[i];
        let copy = PasswdEntry {
            name: e.name.clone(),
            passwd: e.passwd.clone(),
            uid: e.uid,
            gid: e.gid,
            gecos: e.gecos.clone(),
            homedir: e.homedir.clone(),
            shell: e.shell.clone(),
        };
        r.push(passwd_entry_to_passwd(copy));
        i = i + 1;
    }
    r
}

/// The mapping loses nothing: mapping a record back recovers it, so two wire
/// records with the same local form are the same record, field by field.
pub proof fn lemma_local_of_lossless(a: WireRecord, b: WireRecord)
    ensures
        wire_of(local_of(a)) == a,
        local_of(a) == local_of(b) ==> a == b,
{
}

} // verus!
