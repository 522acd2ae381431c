//! Disks: which block devices are power managed, and the commands and writes that set
//! their APM level and autosuspend delay. Only rotational disks are touched.
use crate::sysfs::{write_of, writes_view, SysfsWrite};
use crate::text::{
    chars_of, decimal, eq_lit, lemma_string_views_push, push_decimal, push_signed, push_str,
    signed_decimal, starts_with, starts_with_chars, string_of, string_views, trim, trim_chars,
};
use vstd::prelude::*;

verus! {

/// A disk: its device node, its directory under `/sys/block`, and whether it spins.
#[derive(Clone, Debug)]
pub struct Disk {
    pub path: String,
    pub block: String,
    pub is_rotational: bool,
}

/// The disks of the machine.
#[derive(Clone, Debug)]
pub struct Disks(pub Vec<Disk>);

/// A block device, as the daemon finds it: its name, whether it has a `slaves`
/// directory, and the text of its `queue/rotational` file when it could be read.
#[derive(Clone, Debug)]
pub struct BlockDevice {
    pub name: String,
    pub has_slaves: bool,
    pub rotational: Option<String>,
}

/// Whether a block device is a disk to manage: it has a `slaves` directory and is not a
/// loop, device-mapper or software RAID device.
pub open spec fn is_disk(d: BlockDevice) -> bool {
    d.has_slaves && !starts_with(d.name@, "loop"@) && !starts_with(d.name@, "dm"@) && !starts_with(
        d.name@,
        "md"@,
    )
}

/// Whether a `queue/rotational` file says the disk spins: its text, trimmed, is `1`.
pub open spec fn rotational(text: Option<String>) -> bool {
    match text {
        Some(t) => trim(t@) == "1"@,
        None => false,
    }
}

/// The disks among the block devices, in order, as (name, rotational).
pub open spec fn disk_entries(devices: Seq<BlockDevice>) -> Seq<(Seq<char>, bool)>
    decreases devices.len(),
{
    if devices.len() == 0 {
        Seq::empty()
    } else if is_disk(devices.last()) {
        disk_entries(devices.drop_last()).push((devices.last().name@, rotational(devices.last().rotational)))
    } else {
        disk_entries(devices.drop_last())
    }
}

impl Disk {
    /// The disk named `name`, spinning or not.
    pub fn new(name: &str, is_rotational: bool) -> (d: Disk)
        ensures
            d.path@ == "/dev/"@ + name@,
            d.block@ == "/sys/block/"@ + name@,
            d.is_rotational == is_rotational,
    {
        let mut p = chars_of("/dev/");
        push_str(&mut p, name);
        let mut b = chars_of("/sys/block/");
        push_str(&mut b, name);
        Disk { path: string_of(&p), block: string_of(&b), is_rotational }
    }

    /// The arguments of `hdparm` that set the APM level.
    pub fn apm_level_args(&self, level: u8) -> (args: Vec<String>)
        ensures
            string_views(args@) == seq!["-B"@, decimal(level as nat), self.path@],
    {
        let mut args: Vec<String> = Vec::new();
        args.push(string_of(&chars_of("-B")));
        let mut l: Vec<char> = Vec::new();
        push_decimal(&mut l, level as u64);
        args.push(string_of(&l));
        args.push(self.path.clone());
        assert(string_views(args@) =~= seq!["-B"@, decimal(level as nat), self.path@]);
        args
    }

    /// The write of the autosuspend delay.
    pub fn autosuspend_delay(&self, ms: i32) -> (w: SysfsWrite)
        ensures
            w@ == (self.block@ + "/device/power/autosuspend_delay_ms"@, signed_decimal(ms as int)),
    {
        let mut p = chars_of(self.block.as_str());
        push_str(&mut p, "/device/power/autosuspend_delay_ms");
        let mut v: Vec<char> = Vec::new();
        push_signed(&mut v, ms as i64);
        write_of(&p, &v)
    }
}

/// The rotational disks, in order.
pub open spec fn spinning(disks: Seq<Disk>) -> Seq<Disk>
    decreases disks.len(),
{
    if disks.len() == 0 {
        Seq::empty()
    } else if disks.last().is_rotational {
        spinning(disks.drop_last()).push(disks.last())
    } else {
        spinning(disks.drop_last())
    }
}

impl Disks {
    /// The disks among the block devices.
    pub fn from_devices(devices: &Vec<BlockDevice>) -> (d: Disks)
        ensures
            d.0@.map_values(|x: Disk| (x.block@, x.is_rotational)) == disk_entries(devices@).map_values(
                |e: (Seq<char>, bool)| ("/sys/block/"@ + e.0, e.1),
            ),
            forall|i: int| 0 <= i < d.0@.len() ==> #[trigger] d.0@[i].block@.len() >= 11 && d.0@[i].path@
                == "/dev/"@ + d.0@[i].block@.subrange(11, d.0@[i].block@.len() as int),
    {
        let mut v: Vec<Disk> = Vec::new();
        let mut i: usize = 0;
        proof {
            reveal_strlit("/sys/block/");
        }
        while i < devices.len()
            invariant
                i <= devices@.len(),
                "/sys/block/"@.len() == 11,
                v@.map_values(|x: Disk| (x.block@, x.is_rotational)) == disk_entries(devices@.take(i as int)).map_values(
                    |e: (Seq<char>, bool)| ("/sys/block/"@ + e.0, e.1),
                ),
                forall|j: int| 0 <= j < v@.len() ==> #[trigger] v@[j].block@.len() >= 11 && v@[j].path@
                    == "/dev/"@ + v@[j].block@.subrange(11, v@[j].block@.len() as int),
            decreases devices@.len() - i,
        {
            let dev = &devices[i];
            let name = chars_of(dev.name.as_str());
            let keep = dev.has_slaves && !starts_with_chars(&name, &chars_of("loop"))
                && !starts_with_chars(&name, &chars_of("dm")) && !starts_with_chars(&name, &chars_of("md"));
            let ghost before = v@;
            proof {
                assert(devices@.take(i + 1).drop_last() =~= devices@.take(i as int));
                assert(devices@.take(i + 1).last() == devices@[i as int]);
            }
            if keep {
                let rot = match &dev.rotational {
                    Some(t) => eq_lit(&trim_chars(&chars_of(t.as_str())), "1"),
                    None => false,
                };
                let d = Disk::new(dev.name.as_str(), rot);
                v.push(d);
                let ghost f = |x: Disk| (x.block@, x.is_rotational);
                let ghost g = |e: (Seq<char>, bool)| ("/sys/block/"@ + e.0, e.1);
                assert(v@.map_values(f) =~= before.map_values(f).push(f(d)));
                assert(disk_entries(devices@.take(i + 1)) == disk_entries(devices@.take(i as int)).push(
                    (dev.name@, rot),
                ));
                assert(disk_entries(devices@.take(i + 1)).map_values(g) =~= disk_entries(devices@.take(i as int)).map_values(g).push(
                    g((dev.name@, rot)),
                ));
                assert(d.block@.subrange(11, d.block@.len() as int) =~= dev.name@);
            }
            i = i + 1;
        }
        assert(devices@.take(i as int) =~= devices@);
        Disks(v)
    }

    /// The `hdparm` runs that set the APM level of each rotational disk.
    pub fn set_apm_level(&self, level: u8) -> (runs: Vec<Vec<String>>)
        ensures
            runs@.len() == spinning(self.0@).len(),
            forall|i: int|
                0 <= i < runs@.len() ==> string_views(#[trigger] runs@[i]@) == seq![
                    "-B"@,
                    decimal(level as nat),
                    spinning(self.0@)[i].path@,
                ],
    {
        let mut runs: Vec<Vec<String>> = Vec::new();
        let mut i: usize = 0;
        while i < self.0.len()
            invariant
                i <= self.0@.len(),
                runs@.len() == spinning(self.0@.take(i as int)).len(),
                forall|k: int|
                    0 <= k < runs@.len() ==> string_views(#[trigger] runs@[k]@) == seq![
                        "-B"@,
                        decimal(level as nat),
                        spinning(self.0@.take(i as int))[k].path@,
                    ],
            decreases self.0@.len() - i,
        {
            proof {
                assert(self.0@.take(i + 1).drop_last() =~= self.0@.take(i as int));
                assert(self.0@.take(i + 1).last() == self.0@[i as int]);
            }
            if self.0[i].is_rotational {
                runs.push(self.0[i].apm_level_args(level));
            }
            i = i + 1;
        }
        assert(self.0@.take(i as int) =~= self.0@);
        runs
    }

    /// The writes that set the autosuspend delay of each rotational disk.
    pub fn set_autosuspend_delay(&self, ms: i32) -> (w: Vec<SysfsWrite>)
        ensures
            w@.len() == spinning(self.0@).len(),
            forall|i: int|
                0 <= i < w@.len() ==> (#[trigger] w@[i])@ == (spinning(self.0@)[i].block@
                    + "/device/power/autosuspend_delay_ms"@, signed_decimal(ms as int)),
    {
        let mut w: Vec<SysfsWrite> = Vec::new();
        let mut i: usize = 0;
        while i < self.0.len()
            invariant
                i <= self.0@.len(),
                w@.len() == spinning(self.0@.take(i as int)).len(),
                forall|k: int|
                    0 <= k < w@.len() ==> (#[trigger] w@[k])@ == (spinning(self.0@.take(i as int))[k].block@
                        + "/device/power/autosuspend_delay_ms"@, signed_decimal(ms as int)),
            decreases self.0@.len() - i,
        {
            proof {
                assert(self.0@.take(i + 1).drop_last() =~= self.0@.take(i as int));
                assert(self.0@.take(i + 1).last() == self.0@[i as int]);
            }
            if self.0[i].is_rotational {
                w.push(self.0[i].autosuspend_delay(ms));
            }
            i = i + 1;
        }
        assert(self.0@.take(i as int) =~= self.0@);
        w
    }
}

} // verus!
