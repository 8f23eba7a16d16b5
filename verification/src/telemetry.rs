//! The bookkeeping of a size-capped telemetry file.
//!
//! The file is rotated before a line that would exceed the cap; one older generation is
//! kept, so the total stays within twice the cap. A line that no file of that cap can
//! hold beside the header is dropped, and so is one that found no room because a rotation
//! failed. Telemetry never goes to flash.

use crate::text::has_prefix;
use crate::text::same_text;
use vstd::prelude::*;

verus! {

/// The first line of every file.
pub const HEADER: &'static str =
    "t,grid,reported,target,soc,state,command,owner,actual,fc,maxdis,acout,reason,minsoc,dcbatt";

/// The bytes of that line, with its line end.
pub const HEADER_BYTES: u64 = 91;

/// How much of the cap the current file has used, in bytes.
#[derive(Clone, Copy, Debug, PartialEq, Eq, Structural)]
pub struct Telemetry {
    pub cap: u64,
    pub written: u64,
}

/// What to do with a line.
#[derive(Clone, Copy, Debug, PartialEq, Eq, Structural)]
pub enum Plan {
    /// Write it to the current file.
    Append,
    /// Rotate the file, and ask again.
    Rotate,
    /// Leave it out: no file can hold it.
    Drop,
}

/// The bytes in a new file: its header with the line end, where that could be written.
pub open spec fn opening(header_ok: bool) -> nat {
    if header_ok {
        HEADER@.len() + 1
    } else {
        0
    }
}

/// Can a file of this cap hold a line of this many bytes, and its line end, beside the
/// header?
pub open spec fn fits(cap: nat, line_len: nat) -> bool {
    opening(true) + line_len + 1 <= cap
}

/// What to do with a line of this many bytes where the file has used so much of the cap.
pub open spec fn planned(cap: nat, written: nat, line_len: nat) -> Plan {
    if !fits(cap, line_len) {
        Plan::Drop
    } else if written + line_len + 1 > cap {
        Plan::Rotate
    } else {
        Plan::Append
    }
}

proof fn header_bytes()
    ensures
        opening(true) == HEADER_BYTES,
{
    reveal_strlit(
        "t,grid,reported,target,soc,state,command,owner,actual,fc,maxdis,acout,reason,minsoc,dcbatt",
    );
}

impl Telemetry {
    /// The cap holds the header, and the file has not outgrown it.
    pub open spec fn wf(self) -> bool {
        opening(true) <= self.cap && self.written <= self.cap
    }

    /// The books of a file that may grow to `cap_bytes`, before there is one. A cap that
    /// cannot hold the header admits no file.
    pub fn open(cap_bytes: u64) -> (t: Option<Self>)
        ensures
            t == (if opening(true) <= cap_bytes {
                Some(Telemetry { cap: cap_bytes, written: 0 })
            } else {
                None
            }),
            t is Some ==> t->0.wf(),
    {
        proof {
            header_bytes();
        }
        if HEADER_BYTES <= cap_bytes {
            Some(Telemetry { cap: cap_bytes, written: 0 })
        } else {
            None
        }
    }

    /// What to do with a line of this many bytes, and its line end.
    pub fn plan(&self, line_len: u64) -> (p: Plan)
        requires
            self.wf(),
        ensures
            p == planned(self.cap as nat, self.written as nat, line_len as nat),
    {
        proof {
            header_bytes();
        }
        if line_len >= self.cap - HEADER_BYTES {
            Plan::Drop
        } else if line_len >= self.cap - self.written {
            Plan::Rotate
        } else {
            Plan::Append
        }
    }

    /// A new file took the place of the old one, or is the first; `header_ok` is whether
    /// its header was written.
    pub fn rotate(&mut self, header_ok: bool)
        requires
            old(self).wf(),
        ensures
            final(self).wf(),
            final(self).cap == old(self).cap,
            final(self).written == opening(header_ok),
    {
        proof {
            header_bytes();
        }
        self.written = if header_ok {
            HEADER_BYTES
        } else {
            0
        };
    }

    /// A line of this many bytes, and its line end, was written to the file.
    pub fn write_line(&mut self, line_len: u64)
        requires
            old(self).wf(),
            planned(old(self).cap as nat, old(self).written as nat, line_len as nat)
                == Plan::Append,
        ensures
            final(self).wf(),
            *final(self) == (Telemetry {
                written: (old(self).written + line_len + 1) as u64,
                ..*old(self)
            }),
    {
        self.written = self.written + line_len + 1;
    }
}

/// A new file has room for every line that any file can hold, so a line waits for at
/// most one rotation.
pub proof fn rotation_makes_room(t: Telemetry, line_len: nat, header_ok: bool)
    requires
        planned(t.cap as nat, t.written as nat, line_len) == Plan::Rotate,
    ensures
        planned(t.cap as nat, opening(header_ok), line_len) == Plan::Append,
{
}

/// One line of a file; a row is given by its bytes without the line end.
pub enum Entry {
    Header,
    Row(nat),
}

/// The bytes of a file.
pub open spec fn bytes(file: Seq<Entry>) -> nat
    decreases file.len(),
{
    if file.len() == 0 {
        0
    } else {
        bytes(file.drop_last()) + (match file.last() {
            Entry::Header => opening(true),
            Entry::Row(n) => n + 1,
        })
    }
}

/// The rows of a file, its header left out.
pub open spec fn rows(file: Seq<Entry>) -> Seq<nat>
    decreases file.len(),
{
    if file.len() == 0 {
        Seq::empty()
    } else {
        match file.last() {
            Entry::Header => rows(file.drop_last()),
            Entry::Row(n) => rows(file.drop_last()).push(n),
        }
    }
}

/// The files on disk: the current one and the generation before it.
pub struct Files {
    pub current: Seq<Entry>,
    pub older: Option<Seq<Entry>>,
}

impl Files {
    /// A run begins with the header alone.
    pub open spec fn fresh() -> Files {
        Files { current: seq![Entry::Header], older: None }
    }

    /// The files after one line was handled as planned, each step succeeding.
    pub open spec fn after_line(self, cap: nat, line_len: nat) -> Files {
        match planned(cap, bytes(self.current), line_len) {
            Plan::Drop => self,
            Plan::Rotate => Files {
                current: seq![Entry::Header, Entry::Row(line_len)],
                older: Some(self.current),
            },
            Plan::Append => Files { current: self.current.push(Entry::Row(line_len)), ..self },
        }
    }

    /// The files after each of the lines in turn.
    pub open spec fn after_lines(self, cap: nat, line_lens: Seq<nat>) -> Files
        decreases line_lens.len(),
    {
        if line_lens.len() == 0 {
            self
        } else {
            self.after_lines(cap, line_lens.drop_last()).after_line(cap, line_lens.last())
        }
    }

    /// The rows on disk, the older generation first.
    pub open spec fn kept(self) -> Seq<nat> {
        match self.older {
            Some(older) => rows(older) + rows(self.current),
            None => rows(self.current),
        }
    }

    /// All the bytes on disk.
    pub open spec fn footprint(self) -> nat {
        match self.older {
            Some(older) => bytes(older) + bytes(self.current),
            None => bytes(self.current),
        }
    }
}

/// Does a file begin with the header, and with no other?
pub open spec fn headed(file: Seq<Entry>) -> bool {
    &&& file.len() > 0
    &&& file[0] is Header
    &&& forall|i: int| 0 < i < file.len() ==> #[trigger] file[i] is Row
}

proof fn appending_adds_the_line(file: Seq<Entry>, line_len: nat)
    ensures
        bytes(file.push(Entry::Row(line_len))) == bytes(file) + line_len + 1,
        rows(file.push(Entry::Row(line_len))) == rows(file).push(line_len),
{
    assert(file.push(Entry::Row(line_len)).drop_last() =~= file);
}

proof fn new_file_holds_the_header()
    ensures
        bytes(seq![Entry::Header]) == opening(true),
        rows(seq![Entry::Header]) == Seq::<nat>::empty(),
{
    let file = seq![Entry::Header];
    assert(file.drop_last() =~= Seq::<Entry>::empty());
    assert(bytes(file.drop_last()) == 0);
    assert(rows(file.drop_last()) == Seq::<nat>::empty());
}

/// The books follow the files: a new file counts its header, an appended line adds its
/// bytes and its line end, and a dropped one nothing.
pub proof fn books_follow_the_files(f: Files, cap: nat, line_len: nat)
    ensures
        bytes(Files::fresh().current) == opening(true),
        bytes(f.after_line(cap, line_len).current) == (match planned(
            cap,
            bytes(f.current),
            line_len,
        ) {
            Plan::Drop => bytes(f.current),
            Plan::Rotate => opening(true) + line_len + 1,
            Plan::Append => bytes(f.current) + line_len + 1,
        }),
{
    new_file_holds_the_header();
    appending_adds_the_line(f.current, line_len);
    appending_adds_the_line(seq![Entry::Header], line_len);
    assert(seq![Entry::Header].push(Entry::Row(line_len)) =~= seq![
        Entry::Header,
        Entry::Row(line_len),
    ]);
}

/// The footprint is bounded: whatever lines a run writes, neither generation outgrows the
/// cap, both together stay within twice the cap, and each begins with the header.
pub proof fn generations_stay_within_the_cap(cap: nat, line_lens: Seq<nat>)
    requires
        opening(true) <= cap,
    ensures
        ({
            let f = Files::fresh().after_lines(cap, line_lens);
            &&& bytes(f.current) <= cap && headed(f.current)
            &&& f.older matches Some(older) ==> bytes(older) <= cap && headed(older)
            &&& f.footprint() <= 2 * cap
        }),
    decreases line_lens.len(),
{
    new_file_holds_the_header();
    if line_lens.len() > 0 {
        generations_stay_within_the_cap(cap, line_lens.drop_last());
        let f = Files::fresh().after_lines(cap, line_lens.drop_last());
        books_follow_the_files(f, cap, line_lens.last());
    }
}

/// The lines that a file of this cap can hold.
pub open spec fn fitting(cap: nat, line_lens: Seq<nat>) -> Seq<nat> {
    line_lens.filter(|n: nat| fits(cap, n))
}

/// How often the lines have the file rotated.
pub open spec fn rotations(cap: nat, line_lens: Seq<nat>) -> nat
    decreases line_lens.len(),
{
    if line_lens.len() == 0 {
        0
    } else {
        let rest = line_lens.drop_last();
        let f = Files::fresh().after_lines(cap, rest);
        rotations(cap, rest) + (if planned(cap, bytes(f.current), line_lens.last())
            == Plan::Rotate {
            1nat
        } else {
            0
        })
    }
}

/// No row is lost or doubled at a rotation: the rows on disk are the latest of those that
/// can be held, in their order, and all of them until a second rotation.
pub proof fn latest_rows_are_kept(cap: nat, line_lens: Seq<nat>)
    ensures
        ({
            let f = Files::fresh().after_lines(cap, line_lens);
            let all = fitting(cap, line_lens);
            &&& f.kept().len() <= all.len()
            &&& f.kept() == all.skip(all.len() - f.kept().len())
            &&& rotations(cap, line_lens) <= 1 ==> f.kept() == all
            &&& rotations(cap, line_lens) == 0 <==> f.older is None
        }),
    decreases line_lens.len(),
{
    let all = fitting(cap, line_lens);
    reveal(Seq::filter);
    new_file_holds_the_header();
    if line_lens.len() == 0 {
        assert(all.skip(0) =~= all);
    } else {
        let rest = line_lens.drop_last();
        let n = line_lens.last();
        latest_rows_are_kept(cap, rest);
        let f = Files::fresh().after_lines(cap, rest);
        let g = Files::fresh().after_lines(cap, line_lens);
        let before = fitting(cap, rest);
        appending_adds_the_line(f.current, n);
        appending_adds_the_line(seq![Entry::Header], n);
        assert(seq![Entry::Header].push(Entry::Row(n)) =~= seq![Entry::Header, Entry::Row(n)]);
        assert(f.kept() == before.skip(before.len() - f.kept().len()));
        match planned(cap, bytes(f.current), n) {
            Plan::Drop => {
                assert(all == before);
            },
            Plan::Append => {
                assert(all == before.push(n));
                assert(g.kept() =~= f.kept().push(n));
                assert(g.kept() =~= all.skip(all.len() - g.kept().len()));
            },
            Plan::Rotate => {
                assert(all == before.push(n));
                assert(g.kept() =~= rows(f.current).push(n));
                let held = f.kept();
                assert(rows(f.current) =~= held.skip(held.len() - rows(f.current).len()));
                assert(rows(f.current) =~= before.skip(before.len() - rows(f.current).len()));
                assert(g.kept() =~= all.skip(all.len() - g.kept().len()));
            },
        }
    }
}

/// Does a directory, every link in it resolved, lie on flash?
pub open spec fn on_flash(dir: Seq<char>) -> bool {
    dir == "/data"@ || "/data/"@.is_prefix_of(dir)
}

/// Does a path lead to flash as it is written? The log directory is a link to flash.
pub open spec fn leads_to_flash(path: Seq<char>) -> bool {
    on_flash(path) || path == "/var/log"@ || "/var/log/"@.is_prefix_of(path)
}

fn is_flash_dir(dir: &str) -> (r: bool)
    ensures
        r == on_flash(dir@),
{
    same_text(dir, "/data") || has_prefix(dir, "/data/")
}

/// Does a path lead to flash, as far as its text tells?
pub fn is_flash_path(path: &str) -> (r: bool)
    ensures
        r == leads_to_flash(path@),
{
    is_flash_dir(path) || same_text(path, "/var/log") || has_prefix(path, "/var/log/")
}

/// May no telemetry go to this path? `parent` is its directory with every link resolved,
/// where it exists, and then decides alone. Where it does not exist, it is going to be
/// made below `ancestor`, the nearest directory above it that does, resolved likewise;
/// then the path as it is written counts too.
pub open spec fn refused_for_flash(
    path: Seq<char>,
    parent: Option<Seq<char>>,
    ancestor: Option<Seq<char>>,
) -> bool {
    match parent {
        Some(dir) => on_flash(dir),
        None => leads_to_flash(path) || (ancestor matches Some(dir) && on_flash(dir)),
    }
}

/// Refuse a path on flash, links resolved as far as they exist.
pub fn refuses(path: &str, parent: &Option<String>, ancestor: &Option<String>) -> (r: bool)
    ensures
        r == refused_for_flash(path@, crate::text::text(*parent), crate::text::text(*ancestor)),
{
    match parent {
        Some(dir) => is_flash_dir(dir.as_str()),
        None => is_flash_path(path) || match ancestor {
            Some(dir) => is_flash_dir(dir.as_str()),
            None => false,
        },
    }
}

/// What becomes of a line, in bytes: with its line end it goes into the file where there
/// is room, into a new one where there is not, and nowhere where even a new one, with its
/// 91 bytes of header, could not hold it.
pub proof fn line_is_planned_by_its_room(cap: nat, written: nat, line_len: nat)
    ensures
        planned(cap, written, line_len) is Drop <==> line_len + 92 > cap,
        line_len + 92 <= cap ==> (planned(cap, written, line_len) is Append <==> written + line_len
            + 1 <= cap),
{
    header_bytes();
}

} // verus!
