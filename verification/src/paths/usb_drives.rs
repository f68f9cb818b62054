//! USB drives mounted on the HMI: which entries of the mount table are removable
//! storage, what a drive is called, and which drive is used.
use vstd::prelude::*;
use crate::text::{chars_of, is_white_space, str_eq, string_of};

verus! {

/// One mounted drive.
#[derive(Debug, Clone)]
pub struct UsbDrive {
    pub name: String,
    pub mountpoint: String,
    pub size_bytes: u64,
}

impl UsbDrive {
    /// The mountpoint as shown to the user.
    pub fn mountpoint_display(&self) -> (s: String)
        ensures
            s@ == self.mountpoint@,
    {
        self.mountpoint.clone()
    }
}

/// Whether `a` sorts before `b` as paths (`Path`'s order, component by component).
pub uninterp spec fn path_precedes(a: Seq<char>, b: Seq<char>) -> bool;

/// Whether path `a` sorts before path `b` (std `Path`'s `<`). `Path` is `Ord`, a strict
/// total order on paths: a path that sorts before another does not also sort after it,
/// and whatever sorts before the first sorts before the second too.
#[verifier::external_body]
fn path_lt(a: &str, b: &str) -> (r: bool)
    ensures
        r == path_precedes(a@, b@),
        r ==> !path_precedes(b@, a@),
        r ==> forall|c: Seq<char>| #[trigger] path_precedes(c, a@) ==> path_precedes(c, b@),
{
    std::path::Path::new(a) < std::path::Path::new(b)
}

/// Whether path `p` begins with the components of `base`.
pub uninterp spec fn path_starts_with(p: Seq<char>, base: Seq<char>) -> bool;

/// Whether path `p` begins with the components of `base` (std `Path::starts_with`).
#[verifier::external_body]
fn path_has_prefix(p: &str, base: &str) -> (r: bool)
    ensures
        r == path_starts_with(p@, base@),
{
    std::path::Path::new(p).starts_with(base)
}

/// The last component of path `p`, if it has one that names a file or directory.
pub uninterp spec fn path_file_name(p: Seq<char>) -> Option<Seq<char>>;

/// The last component of path `p` (std `Path::file_name`).
#[verifier::external_body]
fn file_name_of(p: &str) -> (r: Option<String>)
    ensures
        match path_file_name(p@) {
            Some(n) => r matches Some(s) && s@ == n,
            None => r is None,
        },
{
    match std::path::Path::new(p).file_name() {
        Some(n) => Some(n.to_string_lossy().into_owned()),
        None => None,
    }
}

/// The file systems that removable drives are formatted with.
pub open spec fn spec_is_usb_fstype(fstype: Seq<char>) -> bool {
    fstype == "vfat"@ || fstype == "exfat"@ || fstype == "ntfs"@ || fstype == "ntfs3"@ || fstype
        == "ext2"@ || fstype == "ext3"@ || fstype == "ext4"@
}

pub fn is_usb_fstype(fstype: &str) -> (b: bool)
    ensures
        b == spec_is_usb_fstype(fstype@),
{
    str_eq(fstype, "vfat") || str_eq(fstype, "exfat") || str_eq(fstype, "ntfs") || str_eq(
        fstype,
        "ntfs3",
    ) || str_eq(fstype, "ext2") || str_eq(fstype, "ext3") || str_eq(fstype, "ext4")
}

/// Where desktop systems mount removable drives.
pub open spec fn spec_is_removable_mount_root(p: Seq<char>) -> bool {
    path_starts_with(p, "/run/media"@) || path_starts_with(p, "/media"@) || path_starts_with(
        p,
        "/mnt"@,
    )
}

pub fn is_removable_mount_root(p: &str) -> (b: bool)
    ensures
        b == spec_is_removable_mount_root(p@),
{
    path_has_prefix(p, "/run/media") || path_has_prefix(p, "/media") || path_has_prefix(p, "/mnt")
}

/// `s` split at each newline.
pub open spec fn lines_from(s: Seq<char>, cur: Seq<char>) -> Seq<Seq<char>>
    decreases s.len(),
{
    if s.len() == 0 {
        seq![cur]
    } else if s[0] == '\n' {
        seq![cur] + lines_from(s.drop_first(), Seq::empty())
    } else {
        lines_from(s.drop_first(), cur.push(s[0]))
    }
}

/// The maximal runs of non-white-space characters of `s` (what `split_whitespace`
/// yields), `cur` being the run in progress.
pub open spec fn words_from(s: Seq<char>, cur: Seq<char>) -> Seq<Seq<char>>
    decreases s.len(),
{
    let done: Seq<Seq<char>> = if cur.len() > 0 {
        seq![cur]
    } else {
        Seq::empty()
    };
    if s.len() == 0 {
        done
    } else if is_white_space(s[0]) {
        done + words_from(s.drop_first(), Seq::empty())
    } else {
        words_from(s.drop_first(), cur.push(s[0]))
    }
}

pub open spec fn words(s: Seq<char>) -> Seq<Seq<char>> {
    words_from(s, Seq::empty())
}

/// The mount table's escape for a space (`\040`) replaced by a space.
pub open spec fn unescape_spaces(s: Seq<char>) -> Seq<char>
    decreases s.len(),
{
    if s.len() == 0 {
        s
    } else if s.len() >= 4 && s.take(4) == seq!['\\', '0', '4', '0'] {
        seq![' '] + unescape_spaces(s.skip(4))
    } else {
        seq![s[0]] + unescape_spaces(s.drop_first())
    }
}

/// A mount-table line that looks like removable storage: its source device and its
/// (unescaped) mountpoint. A line is `source target fstype ...`; it qualifies when the
/// file system is one of the USB ones and the target lies under a removable-media root.
pub open spec fn line_candidate(line: Seq<char>) -> Option<(Seq<char>, Seq<char>)> {
    let w = words(line);
    if w.len() >= 3 && spec_is_usb_fstype(w[2]) && spec_is_removable_mount_root(unescape_spaces(w[1])) {
        Some((w[0], unescape_spaces(w[1])))
    } else {
        None
    }
}

pub open spec fn candidates_of(lines: Seq<Seq<char>>) -> Seq<(Seq<char>, Seq<char>)>
    decreases lines.len(),
{
    if lines.len() == 0 {
        Seq::empty()
    } else {
        let rest = candidates_of(lines.drop_last());
        match line_candidate(lines.last()) {
            Some(c) => rest.push(c),
            None => rest,
        }
    }
}

/// The removable-storage entries of a mount table (the text of `/proc/mounts`), in
/// table order.
pub open spec fn spec_mount_candidates(table: Seq<char>) -> Seq<(Seq<char>, Seq<char>)> {
    candidates_of(lines_from(table, Seq::empty()))
}

/// A mount-table entry that looks like removable storage.
#[derive(Debug, Clone)]
pub struct MountCandidate {
    pub source: String,
    pub mountpoint: String,
}

fn split_lines(s: &Vec<char>) -> (lines: Vec<Vec<char>>)
    ensures
        lines@.map_values(|l: Vec<char>| l@) == lines_from(s@, Seq::empty()),
{
    let mut lines: Vec<Vec<char>> = Vec::new();
    let mut cur: Vec<char> = Vec::new();
    let mut i: usize = 0;
    proof {
        assert(s@.skip(0) =~= s@);
    }
    while i < s.len()
        invariant
            i <= s@.len(),
            lines_from(s@, Seq::empty()) == lines@.map_values(|l: Vec<char>| l@) + lines_from(
                s@.skip(i as int),
                cur@,
            ),
        decreases s.len() - i,
    {
        let c = s[i];
        let ghost rest = s@.skip(i as int);
        proof {
            assert(rest[0] == c);
            assert(rest.drop_first() =~= s@.skip(i + 1));
        }
        if c == '\n' {
            let ghost before = lines@.map_values(|l: Vec<char>| l@);
            let ghost cur_v = cur@;
            lines.push(cur);
            cur = Vec::new();
            proof {
                assert(lines@.map_values(|l: Vec<char>| l@) =~= before.push(cur_v));
                assert(cur@ =~= Seq::<char>::empty());
                assert(before + (seq![cur_v] + lines_from(s@.skip(i + 1), Seq::empty())) =~= before.push(
                    cur_v,
                ) + lines_from(s@.skip(i + 1), Seq::empty()));
            }
        } else {
            cur.push(c);
        }
        i = i + 1;
    }
    let ghost before = lines@.map_values(|l: Vec<char>| l@);
    let ghost cur_v = cur@;
    lines.push(cur);
    proof {
        assert(s@.skip(i as int) =~= Seq::<char>::empty());
        assert(lines@.map_values(|l: Vec<char>| l@) =~= before + seq![cur_v]);
    }
    lines
}

fn split_words(s: &Vec<char>) -> (w: Vec<Vec<char>>)
    ensures
        w@.map_values(|l: Vec<char>| l@) == words(s@),
{
    let mut out: Vec<Vec<char>> = Vec::new();
    let mut cur: Vec<char> = Vec::new();
    let mut i: usize = 0;
    proof {
        assert(s@.skip(0) =~= s@);
    }
    while i < s.len()
        invariant
            i <= s@.len(),
            words(s@) == out@.map_values(|l: Vec<char>| l@) + words_from(s@.skip(i as int), cur@),
        decreases s.len() - i,
    {
        let c = s[i];
        let ghost rest = s@.skip(i as int);
        let ghost before = out@.map_values(|l: Vec<char>| l@);
        let ghost cur_v = cur@;
        proof {
            assert(rest[0] == c);
            assert(rest.drop_first() =~= s@.skip(i + 1));
        }
        if crate::text::char_is_whitespace(c) {
            if cur.len() > 0 {
                out.push(cur);
                cur = Vec::new();
                proof {
                    assert(out@.map_values(|l: Vec<char>| l@) =~= before.push(cur_v));
                    assert(before + (seq![cur_v] + words_from(s@.skip(i + 1), Seq::empty())) =~= before.push(
                        cur_v,
                    ) + words_from(s@.skip(i + 1), Seq::empty()));
                }
            } else {
                proof {
                    assert(Seq::<Seq<char>>::empty() + words_from(s@.skip(i + 1), Seq::empty())
                        =~= words_from(s@.skip(i + 1), Seq::empty()));
                    assert(cur@ =~= Seq::<char>::empty());
                }
            }
        } else {
            cur.push(c);
        }
        i = i + 1;
    }
    let ghost before = out@.map_values(|l: Vec<char>| l@);
    let ghost cur_v = cur@;
    proof {
        assert(s@.skip(i as int) =~= Seq::<char>::empty());
    }
    if cur.len() > 0 {
        out.push(cur);
        proof {
            assert(out@.map_values(|l: Vec<char>| l@) =~= before + seq![cur_v]);
        }
    } else {
        proof {
            assert(before + Seq::<Seq<char>>::empty() =~= before);
        }
    }
    out
}

fn unescape(s: &Vec<char>) -> (r: Vec<char>)
    ensures
        r@ == unescape_spaces(s@),
{
    let mut out: Vec<char> = Vec::new();
    let mut i: usize = 0;
    proof {
        assert(s@.skip(0) =~= s@);
    }
    while i < s.len()
        invariant
            i <= s@.len(),
            unescape_spaces(s@) == out@ + unescape_spaces(s@.skip(i as int)),
        decreases s.len() - i,
    {
        let ghost rest = s@.skip(i as int);
        let ghost before = out@;
        if s.len() - i >= 4 && s[i] == '\\' && s[i + 1] == '0' && s[i + 2] == '4' && s[i + 3] == '0' {
            proof {
                assert(rest.take(4) =~= seq!['\\', '0', '4', '0']);
                assert(rest.skip(4) =~= s@.skip(i + 4));
            }
            out.push(' ');
            proof {
                assert(before + (seq![' '] + unescape_spaces(s@.skip(i + 4))) =~= out@
                    + unescape_spaces(s@.skip(i + 4)));
            }
            i = i + 4;
        } else {
            proof {
                if rest.len() >= 4 {
                    if rest.take(4) == seq!['\\', '0', '4', '0'] {
                        assert(rest.take(4)[0] == s@[i as int]);
                        assert(rest.take(4)[1] == s@[i + 1]);
                        assert(rest.take(4)[2] == s@[i + 2]);
                        assert(rest.take(4)[3] == s@[i + 3]);
                    }
                }
                assert(rest.drop_first() =~= s@.skip(i + 1));
            }
            out.push(s[i]);
            proof {
                assert(before + (seq![s@[i as int]] + unescape_spaces(s@.skip(i + 1))) =~= out@
                    + unescape_spaces(s@.skip(i + 1)));
            }
            i = i + 1;
        }
    }
    proof {
        assert(s@.skip(i as int) =~= Seq::<char>::empty());
        assert(out@ + Seq::<char>::empty() =~= out@);
    }
    out
}

fn line_candidate_of(line: &Vec<char>) -> (r: Option<MountCandidate>)
    ensures
        match line_candidate(line@) {
            Some((source, mountpoint)) => r matches Some(c) && c.source@ == source && c.mountpoint@
                == mountpoint,
            None => r is None,
        },
{
    let w = split_words(line);
    proof {
        assert(w@.len() == words(line@).len());
    }
    if w.len() < 3 {
        return None;
    }
    proof {
        assert(w@[2]@ == words(line@)[2]);
        assert(w@[1]@ == words(line@)[1]);
        assert(w@[0]@ == words(line@)[0]);
    }
    let fstype = string_of(&w[2]);
    if !is_usb_fstype(fstype.as_str()) {
        return None;
    }
    let target = string_of(&unescape(&w[1]));
    if !is_removable_mount_root(target.as_str()) {
        return None;
    }
    Some(MountCandidate { source: string_of(&w[0]), mountpoint: target })
}

/// The removable-storage entries of a mount table (the text of `/proc/mounts`).
pub fn usb_mount_candidates(table: &str) -> (r: Vec<MountCandidate>)
    ensures
        r@.len() == spec_mount_candidates(table@).len(),
        forall|k: int| 0 <= k < r@.len() ==> (#[trigger] r@[k]).source@ == spec_mount_candidates(
            table@,
        )[k].0 && r@[k].mountpoint@ == spec_mount_candidates(table@)[k].1,
{
    let text = chars_of(table);
    let lines = split_lines(&text);
    let ghost all = lines@.map_values(|l: Vec<char>| l@);
    let mut out: Vec<MountCandidate> = Vec::new();
    let mut i: usize = 0;
    while i < lines.len()
        invariant
            i <= lines@.len(),
            all == lines@.map_values(|l: Vec<char>| l@),
            all == lines_from(table@, Seq::empty()),
            out@.len() == candidates_of(all.take(i as int)).len(),
            forall|k: int| 0 <= k < out@.len() ==> (#[trigger] out@[k]).source@ == candidates_of(
                all.take(i as int),
            )[k].0 && out@[k].mountpoint@ == candidates_of(all.take(i as int))[k].1,
        decreases lines.len() - i,
    {
        proof {
            assert(all.take(i + 1).drop_last() =~= all.take(i as int));
            assert(all.take(i + 1).last() == lines@[i as int]@);
        }
        match line_candidate_of(&lines[i]) {
            Some(c) => {
                out.push(c);
            },
            None => {},
        }
        i = i + 1;
    }
    proof {
        assert(all.take(lines@.len() as int) =~= all);
    }
    out
}

/// The name a label gives a drive, from its mountpoint: the last component of the
/// mountpoint, if it has a non-empty one.
pub fn label_from_mountpoint(mountpoint: &str) -> (r: Option<String>)
    ensures
        match path_file_name(mountpoint@) {
            Some(n) if n.len() > 0 => r matches Some(s) && s@ == n,
            _ => r is None,
        },
{
    match file_name_of(mountpoint) {
        Some(name) => {
            if name.unicode_len() == 0 {
                None
            } else {
                Some(name)
            }
        },
        None => None,
    }
}

/// A drive's name: its file-system label when the device has one, else the last
/// component of its mountpoint, else the mountpoint itself.
pub fn usb_drive_name(device_label: Option<String>, mountpoint: &str) -> (name: String)
    ensures
        match device_label {
            Some(l) => name@ == l@,
            None => match path_file_name(mountpoint@) {
                Some(n) if n.len() > 0 => name@ == n,
                _ => name@ == mountpoint@,
            },
        },
{
    match device_label {
        Some(label) => label,
        None => match label_from_mountpoint(mountpoint) {
            Some(label) => label,
            None => String::from_str(mountpoint),
        },
    }
}

/// Whether a mount source names a device node, whose size and label can be looked up.
pub fn is_device_source(source: &str) -> (b: bool)
    ensures
        b == (source@.len() >= 5 && source@.take(5) == "/dev/"@),
{
    let v = chars_of(source);
    let prefix = chars_of("/dev/");
    proof {
        reveal_strlit("/dev/");
    }
    if v.len() < 5 {
        return false;
    }
    let mut i: usize = 0;
    while i < 5
        invariant
            i <= 5,
            v@ == source@,
            prefix@ == "/dev/"@,
            prefix@.len() == 5,
            v@.len() >= 5,
            forall|k: int| 0 <= k < i ==> v@[k] == prefix@[k],
        decreases 5 - i,
    {
        if v[i] != prefix[i] {
            proof {
                assert(source@.take(5)[i as int] != "/dev/"@[i as int]);
            }
            return false;
        }
        i = i + 1;
    }
    proof {
        assert(source@.take(5) =~= "/dev/"@);
    }
    true
}

/// A device's size in bytes from its size in 512-byte sectors, saturating.
pub fn device_size_from_sectors(sectors: u64) -> (bytes: u64)
    ensures
        bytes == if sectors * 512 <= u64::MAX {
            (sectors * 512) as u64
        } else {
            u64::MAX
        },
{
    match sectors.checked_mul(512) {
        Some(b) => b,
        None => u64::MAX,
    }
}

/// The mountpoint that comes first in `Path` order, the earliest listed on ties.
pub open spec fn first_mountpoint(mountpoints: Seq<Seq<char>>) -> Seq<char>
    decreases mountpoints.len(),
{
    if mountpoints.len() <= 1 {
        mountpoints[0]
    } else {
        let best = first_mountpoint(mountpoints.drop_last());
        if path_precedes(mountpoints.last(), best) {
            mountpoints.last()
        } else {
            best
        }
    }
}

pub open spec fn mountpoints_of(drives: Seq<UsbDrive>) -> Seq<Seq<char>> {
    drives.map_values(|d: UsbDrive| d.mountpoint@)
}

/// The drive used for import and export: none when no drive is mounted, otherwise the
/// one whose mountpoint comes first in path order.
pub fn get_usb_mountpoint(drives: &Vec<UsbDrive>) -> (r: Option<String>)
    ensures
        drives@.len() == 0 ==> r is None,
        drives@.len() > 0 ==> (r matches Some(m) && m@ == first_mountpoint(mountpoints_of(drives@))),
        r matches Some(m) ==> forall|k: int|
            0 <= k < drives@.len() ==> drives@[k].mountpoint@ == m@ || !path_precedes(
                #[trigger] drives@[k].mountpoint@,
                m@,
            ),
{
    if drives.len() == 0 {
        return None;
    }
    let ghost ms = mountpoints_of(drives@);
    let mut best: usize = 0;
    let mut i: usize = 1;
    proof {
        assert(ms.take(1).drop_last().len() == 0);
    }
    while i < drives.len()
        invariant
            1 <= i <= drives@.len(),
            best < i,
            ms == mountpoints_of(drives@),
            drives@[best as int].mountpoint@ == first_mountpoint(ms.take(i as int)),
            forall|k: int|
                0 <= k < i ==> drives@[k].mountpoint@ == drives@[best as int].mountpoint@
                    || !path_precedes(#[trigger] drives@[k].mountpoint@, drives@[best as int].mountpoint@),
        decreases drives.len() - i,
    {
        proof {
            assert(ms.take(i + 1).drop_last() =~= ms.take(i as int));
            assert(ms.take(i + 1).last() == drives@[i as int].mountpoint@);
        }
        if path_lt(drives[i].mountpoint.as_str(), drives[best].mountpoint.as_str()) {
            best = i;
        }
        i = i + 1;
    }
    proof {
        assert(ms.take(drives@.len() as int) =~= ms);
    }
    Some(drives[best].mountpoint.clone())
}


/// The drive chosen is one of the drives offered.
pub proof fn law_chosen_mountpoint_is_listed(mountpoints: Seq<Seq<char>>)
    requires
        mountpoints.len() > 0,
    ensures
        mountpoints.contains(first_mountpoint(mountpoints)),
    decreases mountpoints.len(),
{
    if mountpoints.len() > 1 {
        let rest = mountpoints.drop_last();
        law_chosen_mountpoint_is_listed(rest);
        let i = choose|i: int| 0 <= i < rest.len() && rest[i] == first_mountpoint(rest);
        assert(mountpoints[i] == rest[i]);
        assert(mountpoints[mountpoints.len() - 1] == mountpoints.last());
    } else {
        assert(mountpoints[0] == first_mountpoint(mountpoints));
    }
}

/// Every mount the table yields has a USB file system and lies under a removable-media
/// root.
pub proof fn law_candidates_are_removable(lines: Seq<Seq<char>>, k: int)
    requires
        0 <= k < candidates_of(lines).len(),
    ensures
        spec_is_removable_mount_root(candidates_of(lines)[k].1),
    decreases lines.len(),
{
    let rest = candidates_of(lines.drop_last());
    if k < rest.len() {
        law_candidates_are_removable(lines.drop_last(), k);
    }
}

} // verus!
