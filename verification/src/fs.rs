//! The file system collector: which mounts it reports, and their gauges.
use vstd::prelude::*;
use crate::label::{Label, LabelView, Labels, label_views};
use crate::measure::{Measure, Value, reports};
use crate::text::{has_prefix, starts_with, str_eq};

verus! {

/// Pseudo file systems that are not reported.
pub open spec fn ignored_type(t: Seq<char>) -> bool {
    t == "proc"@ || t == "devpts"@ || t == "sysfs"@ || t == "cgroup"@ || t == "overlay"@
}

/// Mount points of pseudo file systems that are not reported.
pub open spec fn ignored_mount(m: Seq<char>) -> bool {
    m == "/proc"@ || m == "/proc/"@ || m == "/dev"@ || m == "/dev/"@ || m == "/sys"@ || m == "/sys/"@
        || has_prefix(m, "/proc/"@) || has_prefix(m, "/dev/"@) || has_prefix(m, "/sys/"@)
}

/// Whether a file system of this type is left out.
pub fn is_ignored_fs_type(fs_type: &str) -> (r: bool)
    ensures
        r == ignored_type(fs_type@),
{
    str_eq(fs_type, "proc") || str_eq(fs_type, "devpts") || str_eq(fs_type, "sysfs") || str_eq(fs_type, "cgroup")
        || str_eq(fs_type, "overlay")
}

/// Whether a file system mounted here is left out.
pub fn is_ignored_fs_mount(mounted_on: &str) -> (r: bool)
    ensures
        r == ignored_mount(mounted_on@),
{
    str_eq(mounted_on, "/proc") || str_eq(mounted_on, "/proc/") || str_eq(mounted_on, "/dev") || str_eq(mounted_on, "/dev/")
        || str_eq(mounted_on, "/sys") || str_eq(mounted_on, "/sys/") || starts_with(mounted_on, "/proc/")
        || starts_with(mounted_on, "/dev/") || starts_with(mounted_on, "/sys/")
}

/// Whether a file system is left out, by its type or its mount point.
pub fn is_ignored_fs(fs_type: &str, mounted_on: &str) -> (r: bool)
    ensures
        r == (ignored_type(fs_type@) || ignored_mount(mounted_on@)),
{
    is_ignored_fs_type(fs_type) || is_ignored_fs_mount(mounted_on)
}

/// What the collector reads of a mounted file system.
pub struct MountStat {
    /// The device.
    pub mounted_from: String,
    pub mounted_on: String,
    pub fs_type: String,
    pub files: u64,
    pub files_total: u64,
    pub files_avail: u64,
    pub free: u64,
    pub avail: u64,
    pub total: u64,
}

/// A gauge labelled with a file system's device, mount point and type.
pub open spec fn fs_gauge(m: Measure, name: Seq<char>, help: Seq<char>, v: u64, s: MountStat) -> bool {
    &&& m.name@ == name
    &&& m.help@ == help
    &&& m.value == Value::Gauge(v)
    &&& m.labels@ == Some(seq![("dev"@, s.mounted_from@), ("mount"@, s.mounted_on@), ("type"@, s.fs_type@)])
    &&& m.timestamp.is_none()
}

/// The six gauges of a reported file system, in order: inodes used,
/// inodes in all, inodes available, free, available and total space.
pub open spec fn mount_gauges(ms: Seq<Measure>, s: MountStat) -> bool {
    &&& ms.len() == 6
    &&& fs_gauge(ms[0], "fs_inodes"@, "Inodes used"@, s.files, s)
    &&& fs_gauge(ms[1], "fs_inodes_total"@, "Total inodes count"@, s.files_total, s)
    &&& fs_gauge(ms[2], "fs_inodes_available"@, "Inodes available"@, s.files_avail, s)
    &&& fs_gauge(ms[3], "fs_free"@, "Free disk space, bytes"@, s.free, s)
    &&& fs_gauge(ms[4], "fs_available"@, "Available disk space, bytes"@, s.avail, s)
    &&& fs_gauge(ms[5], "fs_total"@, "Total disk space, bytes"@, s.total, s)
}

fn gauge(name: &str, help: &str, v: u64, s: &MountStat) -> (m: Measure)
    ensures
        fs_gauge(m, name@, help@, v, *s),
{
    let mut l: Vec<Label> = Vec::new();
    l.push(Label::new("dev", s.mounted_from.as_str()));
    l.push(Label::new("mount", s.mounted_on.as_str()));
    l.push(Label::new("type", s.fs_type.as_str()));
    assert(label_views(l@) =~= seq![("dev"@, s.mounted_from@), ("mount"@, s.mounted_on@), ("type"@, s.fs_type@)]);
    Measure { name: name.to_owned(), help: help.to_owned(), value: Value::Gauge(v), labels: Labels::new(l), timestamp: None }
}

/// The gauges of a file system: none when it is left out, else its six.
pub fn mount_measures(s: &MountStat) -> (r: Vec<Measure>)
    ensures
        if ignored_type(s.fs_type@) || ignored_mount(s.mounted_on@) {
            r.len() == 0
        } else {
            mount_gauges(r@, *s)
        },
{
    let mut r: Vec<Measure> = Vec::new();
    if !is_ignored_fs(s.fs_type.as_str(), s.mounted_on.as_str()) {
        r.push(gauge("fs_inodes", "Inodes used", s.files, s));
        r.push(gauge("fs_inodes_total", "Total inodes count", s.files_total, s));
        r.push(gauge("fs_inodes_available", "Inodes available", s.files_avail, s));
        r.push(gauge("fs_free", "Free disk space, bytes", s.free, s));
        r.push(gauge("fs_available", "Available disk space, bytes", s.avail, s));
        r.push(gauge("fs_total", "Total disk space, bytes", s.total, s));
    }
    r
}


/// Each figure of a reported file system is a gauge under its own name:
/// `fs_inodes` the inodes used, `fs_inodes_total` all inodes,
/// `fs_inodes_available` those available, `fs_free` the free space,
/// `fs_available` the available space and `fs_total` the total space.
pub proof fn lemma_mount_named(ms: Seq<Measure>, s: MountStat)
    requires
        mount_gauges(ms, s),
    ensures
        reports(ms, "fs_inodes"@, Value::Gauge(s.files)),
        reports(ms, "fs_inodes_total"@, Value::Gauge(s.files_total)),
        reports(ms, "fs_inodes_available"@, Value::Gauge(s.files_avail)),
        reports(ms, "fs_free"@, Value::Gauge(s.free)),
        reports(ms, "fs_available"@, Value::Gauge(s.avail)),
        reports(ms, "fs_total"@, Value::Gauge(s.total)),
{
    assert(ms[0].name@ == "fs_inodes"@ && ms[0].value == Value::Gauge(s.files));
    assert(ms[1].name@ == "fs_inodes_total"@ && ms[1].value == Value::Gauge(s.files_total));
    assert(ms[2].name@ == "fs_inodes_available"@ && ms[2].value == Value::Gauge(s.files_avail));
    assert(ms[3].name@ == "fs_free"@ && ms[3].value == Value::Gauge(s.free));
    assert(ms[4].name@ == "fs_available"@ && ms[4].value == Value::Gauge(s.avail));
    assert(ms[5].name@ == "fs_total"@ && ms[5].value == Value::Gauge(s.total));
}

} // verus!
