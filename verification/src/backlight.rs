//! Screen backlights under `/sys/class/backlight`, and lowering a backlight to a
//! percentage of its range.
use crate::text::{chars_of, push_str, string_of, string_views};
use vstd::prelude::*;

verus! {

/// A screen backlight: its name and its directory.
#[derive(Clone, Debug)]
pub struct Backlight {
    pub name: String,
    pub path: String,
}

/// The path `base` becomes once `name` is pushed onto it, as `PathBuf::push` does: an
/// absolute name replaces it, a relative one is added after a separator, unless `base` is
/// empty or already ends with one.
pub open spec fn pushed(base: Seq<char>, name: Seq<char>) -> Seq<char> {
    if name.len() > 0 && name[0] == '/' {
        name
    } else if base.len() == 0 || base.last() == '/' {
        base + name
    } else {
        base + "/"@ + name
    }
}

/// The directory of the backlight named `name`.
pub open spec fn backlight_path(name: Seq<char>) -> Seq<char> {
    pushed("/sys/class/backlight"@, name)
}

/// The path of a file in a directory, as `Path::join` gives it.
pub open spec fn joined(dir: Seq<char>, file: Seq<char>) -> Seq<char> {
    pushed(dir, file)
}

/// `base` with `name` pushed onto it, as `PathBuf::push` does.
pub fn push_path(base: &str, name: &str) -> (p: String)
    ensures
        p@ == pushed(base@, name@),
{
    let b = chars_of(base);
    let n = chars_of(name);
    if n.len() > 0 && n[0] == '/' {
        return string_of(&n);
    }
    let mut t = b;
    if t.len() == 0 || t[t.len() - 1] == '/' {
        push_str(&mut t, name);
    } else {
        push_str(&mut t, "/");
        push_str(&mut t, name);
    }
    proof {
        reveal_strlit("/");
    }
    string_of(&t)
}

/// The path of `file` in `dir`.
pub fn join(dir: &str, file: &str) -> (p: String)
    ensures
        p@ == joined(dir@, file@),
{
    push_path(dir, file)
}

/// A backlight: a directory holding its `brightness` and `max_brightness` files.
pub trait BacklightExt {
    /// The directory, as a sequence of characters.
    spec fn path_view(&self) -> Seq<char>;

    /// The backlight's directory.
    fn path(&self) -> (p: &str)
        ensures
            p@ == self.path_view(),
    ;

    /// The file of the brightness that is set.
    fn brightness_file(&self) -> (p: String)
        ensures
            p@ == joined(self.path_view(), "brightness"@),
    {
        join(self.path(), "brightness")
    }

    /// The file of the highest brightness.
    fn max_brightness_file(&self) -> (p: String)
        ensures
            p@ == joined(self.path_view(), "max_brightness"@),
    {
        join(self.path(), "max_brightness")
    }
}

impl BacklightExt for Backlight {
    open spec fn path_view(&self) -> Seq<char> {
        self.path@
    }

    fn path(&self) -> (p: &str) {
        self.path.as_str()
    }
}

impl Backlight {
    /// The backlight named `name`; it exists where its directory can be read.
    pub fn new(name: &str) -> (b: Backlight)
        ensures
            b.name@ == name@,
            b.path@ == backlight_path(name@),
    {
        Backlight { name: string_of(&chars_of(name)), path: push_path("/sys/class/backlight", name) }
    }

    /// The backlights of the directory entries whose names are valid text.
    pub fn all(names: &Vec<String>) -> (v: Vec<Backlight>)
        ensures
            v@.len() == names@.len(),
            forall|i: int|
                0 <= i < names@.len() ==> #[trigger] v@[i].name@ == names@[i]@ && v@[i].path@
                    == backlight_path(names@[i]@),
    {
        let mut v: Vec<Backlight> = Vec::new();
        let mut i: usize = 0;
        while i < names.len()
            invariant
                i <= names@.len(),
                v@.len() == i,
                forall|j: int|
                    0 <= j < i ==> #[trigger] v@[j].name@ == names@[j]@ && v@[j].path@
                        == backlight_path(names@[j]@),
            decreases names@.len() - i,
        {
            v.push(Backlight::new(names[i].as_str()));
            i = i + 1;
        }
        v
    }

    pub fn name(&self) -> (n: &str)
        ensures
            n@ == self.name@,
    {
        self.name.as_str()
    }

    /// The file that tells whether the backlight is powered.
    pub fn bl_power(&self) -> (p: String)
        ensures
            p@ == joined(self.path@, "bl_power"@),
    {
        join(self.path.as_str(), "bl_power")
    }

    /// The file of the brightness the hardware reports.
    pub fn actual_brightness(&self) -> (p: String)
        ensures
            p@ == joined(self.path@, "actual_brightness"@),
    {
        join(self.path.as_str(), "actual_brightness")
    }
}

/// The brightness `percent`% of the way up a backlight's range.
pub open spec fn percent_of(max_brightness: u64, percent: u64) -> int {
    max_brightness * percent / 100
}

/// Lowers a backlight to `percent`% of its range if it is brighter than that: the
/// brightness it ends at, and the value to write when it changes.
pub fn set_if_lower(max_brightness: u64, current: u64, percent: u64) -> (r: (u64, Option<u64>))
    requires
        max_brightness * percent <= u64::MAX,
    ensures
        percent_of(max_brightness, percent) < current ==> r == (percent_of(max_brightness, percent) as u64, Some(
            percent_of(max_brightness, percent) as u64,
        )),
        percent_of(max_brightness, percent) >= current ==> r == (current, None::<u64>),
{
    let new = max_brightness * percent / 100;
    if new < current {
        (new, Some(new))
    } else {
        (current, None)
    }
}

/// A backlight is never raised: the brightness after `set_if_lower` is at most the
/// current one, and it is changed only to the lower value.
pub proof fn lemma_set_if_lower_never_raises(max_brightness: u64, current: u64, percent: u64)
    requires
        max_brightness * percent <= u64::MAX,
    ensures
        ({
            let new = percent_of(max_brightness, percent);
            let end = if new < current {
                new
            } else {
                current as int
            };
            end <= current && (end != current ==> end == new)
        }),
{
}

} // verus!
