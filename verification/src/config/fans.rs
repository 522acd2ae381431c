//! Fan curve profiles: the standard curve and those the configuration adds.
use crate::entries::{find_key, insert_entry, keys_unique, lookup, names};
use crate::fan::{FanCurve, FanPoint};
use crate::text::{
    chars_of, decimal, eq_lit, lemma_string_views_push, push_all, push_decimal, push_signed,
    push_str, push_text, signed_decimal, string_of, string_views,
};
use vstd::prelude::*;
use vstd::utf8::encode_utf8;

verus! {

/// The standard fan curve and the curves that the configuration adds, by name.
#[derive(Clone, Debug)]
pub struct ConfigFans {
    pub standard: FanCurve,
    pub custom: Vec<(String, FanCurve)>,
}

impl Default for ConfigFans {
    fn default() -> (c: Self)
        ensures
            c.standard.points@ == FanCurve::spec_standard_points(),
            c.custom@.len() == 0,
            c.wf(),
    {
        ConfigFans { standard: FanCurve::standard(), custom: Vec::new() }
    }
}

/// `{ temp = T, duty = D }` for one point.
pub open spec fn point_toml(p: FanPoint) -> Seq<char> {
    "{ temp = "@ + signed_decimal(p.temp as int) + ", duty = "@ + decimal(p.duty as nat) + " }"@
}

/// The points after the first, each on a line of its own that starts with the comment
/// and the indent.
pub open spec fn later_points(pts: Seq<FanPoint>, comment: Seq<char>, indent: Seq<char>) -> Seq<char>
    decreases pts.len(),
{
    if pts.len() == 0 {
        Seq::empty()
    } else {
        later_points(pts.drop_last(), comment, indent) + ",\n"@ + comment + indent + point_toml(
            pts.last(),
        )
    }
}

/// Spaces, as many as the name has bytes and five more, to line up the points under
/// the first one.
pub open spec fn curve_indent(name: Seq<char>) -> Seq<char> {
    Seq::new((encode_utf8(name).len() + 5) as nat, |i: int| ' ')
}

/// A curve as the TOML array `name = [ ... ]`, each line starting with `comment`;
/// nothing for a curve without points.
pub open spec fn curve_toml(name: Seq<char>, pts: Seq<FanPoint>, comment: Seq<char>) -> Seq<char> {
    if pts.len() == 0 {
        Seq::empty()
    } else {
        comment + name + " = [ "@ + point_toml(pts[0]) + later_points(
            pts.drop_first(),
            comment,
            curve_indent(name),
        ) + " ]\n\n"@
    }
}

fn push_point(t: &mut Vec<char>, p: FanPoint)
    ensures
        final(t)@ == old(t)@ + point_toml(p),
{
    let ghost start = t@;
    push_str(t, "{ temp = ");
    push_signed(t, p.temp as i64);
    push_str(t, ", duty = ");
    push_decimal(t, p.duty as u64);
    push_str(t, " }");
    assert(t@ =~= start + point_toml(p));
}

/// Appends the curve as a TOML array.
fn toml_curve(out: &mut Vec<char>, name: &str, curve: &FanCurve, maybe_comment: &str)
    requires
        encode_utf8(name@).len() + 5 <= usize::MAX,
    ensures
        final(out)@ == old(out)@ + curve_toml(name@, curve.points@, maybe_comment@),
{
    let pts = &curve.points;
    if pts.len() == 0 {
        assert(old(out)@ + curve_toml(name@, curve.points@, maybe_comment@) =~= old(out)@);
        return ;
    }
    let ghost start = out@;
    let n = name.len() + 5;
    let mut indent: Vec<char> = Vec::new();
    while indent.len() < n
        invariant
            indent@.len() <= n,
            forall|i: int| 0 <= i < indent@.len() ==> indent@[i] == ' ',
        decreases n - indent@.len(),
    {
        indent.push(' ');
    }
    assert(indent@ =~= curve_indent(name@));
    push_str(out, maybe_comment);
    push_str(out, name);
    push_str(out, " = [ ");
    push_point(out, pts[0]);
    let ghost head = out@;
    let ghost rest = pts@.drop_first();
    let mut i: usize = 1;
    while i < pts.len()
        invariant
            1 <= i <= pts@.len(),
            pts@.len() > 0,
            rest == pts@.drop_first(),
            indent@ == curve_indent(name@),
            out@ == head + later_points(rest.take(i - 1), maybe_comment@, indent@),
        decreases pts@.len() - i,
    {
        push_str(out, ",\n");
        push_str(out, maybe_comment);
        push_all(out, &indent);
        push_point(out, pts[i]);
        proof {
            let r = rest.take(i as int);
            assert(r.drop_last() =~= rest.take(i - 1));
            assert(r.last() == pts@[i as int]);
        }
        i = i + 1;
        assert(out@ =~= head + later_points(rest.take(i - 1), maybe_comment@, indent@));
    }
    assert(rest.take(i - 1) =~= rest);
    push_str(out, " ]\n\n");
    assert(out@ =~= start + curve_toml(name@, curve.points@, maybe_comment@));
}

/// Whether two curves have the same points.
pub fn same_points(a: &Vec<FanPoint>, b: &Vec<FanPoint>) -> (r: bool)
    ensures
        r == (a@ == b@),
{
    if a.len() != b.len() {
        return false;
    }
    let mut i: usize = 0;
    while i < a.len()
        invariant
            a@.len() == b@.len(),
            i <= a@.len(),
            forall|j: int| 0 <= j < i ==> a@[j] == b@[j],
        decreases a@.len() - i,
    {
        if a[i].temp != b[i].temp || a[i].duty != b[i].duty {
            return false;
        }
        i = i + 1;
    }
    assert(a@ =~= b@);
    true
}

/// The comment that marks a curve that holds its default.
pub open spec fn curve_comment(name: Seq<char>, default_is_standard: bool) -> Seq<char> {
    if name == "standard"@ && default_is_standard {
        "# "@
    } else {
        Seq::empty()
    }
}

/// The curves that the configuration adds, as TOML arrays, in order.
pub open spec fn custom_curves(c: Seq<(String, FanCurve)>, default_is_standard: bool) -> Seq<char>
    decreases c.len(),
{
    if c.len() == 0 {
        Seq::empty()
    } else {
        custom_curves(c.drop_last(), default_is_standard) + curve_toml(
            c.last().0@,
            c.last().1.points@,
            curve_comment(c.last().0@, default_is_standard),
        )
    }
}

/// The explanation at the head of the fan curve section.
pub open spec fn fans_header() -> Seq<char> {
    "# Configurations for available fan curve profiles.\n#\n# A curve is defined as a collection of points, each point containing a:\n#   - `temp`: System temperature, in hundredths of a degree.\n#   - `duty`: Fan speed, in hundredths of a percent.\n"@
}

impl ConfigFans {
    /// The invariant: no added curve's name occurs twice.
    pub open spec fn wf(&self) -> bool {
        keys_unique(self.custom@)
    }

    /// Adds the curve `curve` under `name`, replacing the one of that name, as a map's
    /// insertion does; the names stay unique.
    pub fn insert(&mut self, name: String, curve: FanCurve)
        requires
            old(self).wf(),
        ensures
            final(self).wf(),
            final(self).standard == old(self).standard,
            forall|q: Seq<char>| #[trigger] lookup(final(self).custom@, q) == (if q == name@ {
                Some(curve)
            } else {
                lookup(old(self).custom@, q)
            }),
            names(final(self).custom@) == (if lookup(old(self).custom@, name@) is Some {
                names(old(self).custom@)
            } else {
                names(old(self).custom@).push(name@)
            }),
    {
        insert_entry(&mut self.custom, name, curve);
    }

    /// The points of the curve of that name: the standard one, else the first added
    /// one of that name.
    pub open spec fn named(self, name: Seq<char>) -> Option<Seq<FanPoint>> {
        if name == "standard"@ {
            Some(self.standard.points@)
        } else {
            match lookup(self.custom@, name) {
                Some(c) => Some(c.points@),
                None => None,
            }
        }
    }

    /// Getting a curve after adding it: the added curve is found under its name, unless
    /// the name is `standard`, which always gives the standard curve; every other name
    /// gives what it gave before. `standard` is always found.
    pub proof fn lemma_named_after_insert(self, after: Self, name: Seq<char>, curve: FanCurve, q: Seq<char>)
        requires
            after.standard == self.standard,
            forall|k: Seq<char>| #[trigger] lookup(after.custom@, k) == (if k == name {
                Some(curve)
            } else {
                lookup(self.custom@, k)
            }),
        ensures
            name != "standard"@ ==> after.named(name) == Some(curve.points@),
            q != name ==> after.named(q) == self.named(q),
            after.named("standard"@) == Some(self.standard.points@),
    {
        assert(lookup(after.custom@, name) == Some(curve));
        assert(lookup(after.custom@, q) == (if q == name {
            Some(curve)
        } else {
            lookup(self.custom@, q)
        }));
    }

    pub fn get(&self, profile: &str) -> (r: Option<&FanCurve>)
        ensures
            match r {
                Some(c) => self.named(profile@) == Some(c.points@),
                None => self.named(profile@) is None,
            },
    {
        let name = chars_of(profile);
        if eq_lit(&name, "standard") {
            Some(&self.standard)
        } else {
            let key = string_of(&name);
            match find_key(&self.custom, &key) {
                Some(i) => Some(&self.custom[i].1),
                None => None,
            }
        }
    }

    /// The names of all curves: the standard one, then the added ones in order, each
    /// added one once.
    pub fn get_profiles(&self) -> (r: Vec<String>)
        requires
            self.wf(),
        ensures
            string_views(r@) == seq!["standard"@] + names(self.custom@),
            forall|i: int, j: int| 1 <= i < j < r@.len() ==> r@[i]@ != r@[j]@,
    {
        let mut r: Vec<String> = Vec::new();
        r.push(string_of(&chars_of("standard")));
        let mut i: usize = 0;
        while i < self.custom.len()
            invariant
                i <= self.custom@.len(),
                string_views(r@) == seq!["standard"@] + names(self.custom@).take(i as int),
            decreases self.custom@.len() - i,
        {
            let ghost old_r = r@;
            let s = self.custom[i].0.clone();
            r.push(s);
            proof {
                lemma_string_views_push(old_r, s);
                assert(names(self.custom@).take(i + 1) =~= names(self.custom@).take(i as int).push(
                    self.custom@[i as int].0@,
                ));
            }
            i = i + 1;
            assert(string_views(r@) =~= seq!["standard"@] + names(self.custom@).take(i as int));
        }
        assert(names(self.custom@).take(i as int) =~= names(self.custom@));
        proof {
            assert forall|i: int, j: int| 1 <= i < j < r@.len() implies r@[i]@ != r@[j]@ by {
                assert(string_views(r@)[i] == r@[i]@);
                assert(string_views(r@)[j] == r@[j]@);
                assert(names(self.custom@)[i - 1] == self.custom@[i - 1].0@);
                assert(names(self.custom@)[j - 1] == self.custom@[j - 1].0@);
            }
        }
        r
    }

    /// The `[fan_curves]` section: the standard curve, commented out while it is the
    /// default one, then the added curves; the section header too is commented out
    /// when nothing differs from the defaults.
    pub open spec fn toml(self) -> Seq<char> {
        let default_is_standard = self.standard.points@ == FanCurve::spec_standard_points();
        fans_header() + (if default_is_standard && self.custom@.len() == 0 {
            "# "@
        } else {
            Seq::empty()
        }) + "[fan_curves]\n# The default fan curve.\n"@ + curve_toml(
            "standard"@,
            self.standard.points@,
            curve_comment("standard"@, default_is_standard),
        ) + custom_curves(self.custom@, default_is_standard)
    }

    /// Appends the `[fan_curves]` section.
    pub fn serialize_toml(&self, out: &mut Vec<u8>)
        requires
            forall|i: int|
                0 <= i < self.custom@.len() ==> encode_utf8(#[trigger] self.custom@[i].0@).len() + 5
                    <= usize::MAX,
        ensures
            final(out)@ == old(out)@ + encode_utf8(self.toml()),
    {
        let defaults = ConfigFans::default();
        let default_is_standard = same_points(&defaults.standard.points, &self.standard.points);
        let mut values: Vec<char> = Vec::new();
        proof {
            reveal_strlit("standard");
            reveal_strlit("");
            assert(""@ =~= Seq::<char>::empty());
            vstd::string::is_ascii_spec_bytes("standard");
            assert(encode_utf8("standard"@).len() == 8);
        }
        if default_is_standard {
            toml_curve(&mut values, "standard", &self.standard, "# ");
        } else {
            toml_curve(&mut values, "standard", &self.standard, "");
        }
        let ghost head = values@;
        assert(head =~= curve_toml(
            "standard"@,
            self.standard.points@,
            curve_comment("standard"@, default_is_standard),
        ));
        let mut i: usize = 0;
        while i < self.custom.len()
            invariant
                i <= self.custom@.len(),
                forall|j: int|
                    0 <= j < self.custom@.len() ==> encode_utf8(#[trigger] self.custom@[j].0@).len()
                        + 5 <= usize::MAX,
                values@ == head + custom_curves(self.custom@.take(i as int), default_is_standard),
            decreases self.custom@.len() - i,
        {
            proof {
                reveal_strlit("");
                assert(""@ =~= Seq::<char>::empty());
            }
            let name = self.custom[i].0.as_str();
            let is_standard = eq_lit(&chars_of(name), "standard");
            if is_standard && default_is_standard {
                toml_curve(&mut values, name, &self.custom[i].1, "# ");
            } else {
                toml_curve(&mut values, name, &self.custom[i].1, "");
            }
            proof {
                let c = self.custom@.take(i + 1);
                assert(c.drop_last() =~= self.custom@.take(i as int));
                assert(c.last() == self.custom@[i as int]);
            }
            i = i + 1;
            assert(values@ =~= head + custom_curves(self.custom@.take(i as int), default_is_standard));
        }
        assert(self.custom@.take(i as int) =~= self.custom@);
        let mut t: Vec<char> = Vec::new();
        push_str(
            &mut t,
            "# Configurations for available fan curve profiles.\n#\n# A curve is defined as a collection of points, each point containing a:\n#   - `temp`: System temperature, in hundredths of a degree.\n#   - `duty`: Fan speed, in hundredths of a percent.\n",
        );
        if default_is_standard && self.custom.len() == 0 {
            push_str(&mut t, "# ");
        }
        push_str(&mut t, "[fan_curves]\n# The default fan curve.\n");
        push_all(&mut t, &values);
        assert(t@ =~= self.toml());
        push_text(out, &t);
    }
}

} // verus!
