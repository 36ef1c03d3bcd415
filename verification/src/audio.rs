//! Input device selection: which names the settings picker offers and which
//! device a configured microphone name selects.
//!
//! Enumerating devices and capturing audio happen outside the library; a
//! device is described here by its usable name (`None` when it has none).

use vstd::prelude::*;
use crate::config::{debug_quoted, debug_str};
use crate::text::{contains_chars, contains_seq, owned, push_str, str_eq, trim, trimmed};

verus! {

/// What `str::to_lowercase` makes of a string (full Unicode lowercase
/// mapping).
pub uninterp spec fn lowercase(s: Seq<char>) -> Seq<char>;

/// `str::to_lowercase`; the contract names the result without restating
/// Unicode's case tables.
#[verifier::external_body]
fn to_lower(s: &str) -> (r: String)
    ensures
        r@ == lowercase(s@),
{
    s.to_lowercase()
}

pub open spec fn strings_view(v: Seq<String>) -> Seq<Seq<char>> {
    v.map_values(|s: String| s@)
}

/// The distinct names among `s`, in order of first appearance; devices
/// without a name are skipped.
pub open spec fn unique_names(s: Seq<Option<String>>) -> Seq<Seq<char>>
    decreases s.len(),
{
    if s.len() == 0 {
        Seq::empty()
    } else {
        let r = unique_names(s.drop_last());
        match s.last() {
            Some(n) => if r.contains(n@) {
                r
            } else {
                r.push(n@)
            },
            None => r,
        }
    }
}

fn has_name(v: &Vec<String>, name: &String) -> (r: bool)
    ensures
        r == strings_view(v@).contains(name@),
{
    let mut i: usize = 0;
    while i < v.len()
        invariant
            i <= v.len(),
            forall|j: int| 0 <= j < i ==> v@[j]@ != name@,
        decreases v.len() - i,
    {
        if str_eq(v[i].as_str(), name.as_str()) {
            assert(strings_view(v@)[i as int] == name@);
            return true;
        }
        i = i + 1;
    }
    assert(!strings_view(v@).contains(name@)) by {
        if strings_view(v@).contains(name@) {
            let k = choose|k: int| 0 <= k < strings_view(v@).len() && strings_view(v@)[k] == name@;
            assert(v@[k]@ == name@);
        }
    }
    false
}

/// The names offered by the microphone picker: each usable name once, in
/// the order the devices were listed.
pub fn distinct_names(candidates: Vec<Option<String>>) -> (r: Vec<String>)
    ensures
        strings_view(r@) == unique_names(candidates@),
{
    let mut r: Vec<String> = Vec::new();
    let mut i: usize = 0;
    while i < candidates.len()
        invariant
            i <= candidates.len(),
            strings_view(r@) == unique_names(candidates@.take(i as int)),
        decreases candidates.len() - i,
    {
        assert(candidates@.take(i + 1).drop_last() == candidates@.take(i as int));
        match &candidates[i] {
            Some(n) => {
                if !has_name(&r, n) {
                    let ghost before = r@;
                    r.push(n.clone());
                    assert(strings_view(r@) =~= strings_view(before).push(n@));
                }
            },
            None => {},
        }
        i = i + 1;
    }
    assert(candidates@.take(candidates.len() as int) == candidates@);
    r
}

/// No name is offered twice.
pub proof fn lemma_unique_names_distinct(s: Seq<Option<String>>)
    ensures
        forall|i: int, j: int|
            0 <= i < j < unique_names(s).len() ==> unique_names(s)[i] != unique_names(s)[j],
    decreases s.len(),
{
    if s.len() > 0 {
        lemma_unique_names_distinct(s.drop_last());
        let r = unique_names(s.drop_last());
        match s.last() {
            Some(n) => {
                if !r.contains(n@) {
                    assert forall|i: int| 0 <= i < r.len() implies r.push(n@)[i] != n@ by {
                        assert(r[i] == r.push(n@)[i]);
                    }
                }
            },
            None => {},
        }
    }
}

/// The device to open.
#[derive(Debug, Clone, Copy, PartialEq, Eq, Structural)]
pub enum DeviceChoice {
    /// The system's default input device.
    Default,
    /// The device at this position of the listing.
    Index(usize),
}

/// No listed device matches the configured name.
#[derive(Debug, Clone)]
pub struct MicNotFound {
    pub want: String,
    /// The usable names of all listed devices, in order.
    pub available: Vec<String>,
}

/// The configured microphone, trimmed; none when absent or blank.
pub open spec fn wanted(mic: Option<Seq<char>>) -> Option<Seq<char>> {
    match mic {
        Some(m) => if trim(m).len() > 0 {
            Some(trim(m))
        } else {
            None
        },
        None => None,
    }
}

pub open spec fn exact(n: Option<String>, want: Seq<char>) -> bool {
    n matches Some(s) && s@ == want
}

pub open spec fn partial(n: Option<String>, want: Seq<char>) -> bool {
    n matches Some(s) && contains_seq(lowercase(s@), lowercase(want))
}

pub open spec fn exact_first(names: Seq<Option<String>>, want: Seq<char>, i: int) -> bool {
    0 <= i < names.len() && exact(names[i], want) && forall|j: int|
        0 <= j < i ==> !exact(#[trigger] names[j], want)
}

pub open spec fn no_exact(names: Seq<Option<String>>, want: Seq<char>) -> bool {
    forall|j: int| 0 <= j < names.len() ==> !exact(#[trigger] names[j], want)
}

pub open spec fn partial_first(names: Seq<Option<String>>, want: Seq<char>, i: int) -> bool {
    0 <= i < names.len() && partial(names[i], want) && forall|j: int|
        0 <= j < i ==> !partial(#[trigger] names[j], want)
}

pub open spec fn no_partial(names: Seq<Option<String>>, want: Seq<char>) -> bool {
    forall|j: int| 0 <= j < names.len() ==> !partial(#[trigger] names[j], want)
}

/// The usable names among `s`, in order.
pub open spec fn present_names(s: Seq<Option<String>>) -> Seq<Seq<char>>
    decreases s.len(),
{
    if s.len() == 0 {
        Seq::empty()
    } else {
        match s.last() {
            Some(n) => present_names(s.drop_last()).push(n@),
            None => present_names(s.drop_last()),
        }
    }
}

pub open spec fn opt_view(o: Option<&str>) -> Option<Seq<char>> {
    match o {
        Some(s) => Some(s@),
        None => None,
    }
}

/// The configured microphone name to look for: trimmed, and `None` when
/// absent or blank (the system default is meant).
pub fn wanted_mic(mic: Option<&str>) -> (r: Option<String>)
    ensures
        match r {
            Some(w) => wanted(opt_view(mic)) == Some(w@),
            None => wanted(opt_view(mic)) is None,
        },
{
    match mic {
        Some(m) => {
            let t = trimmed(m);
            if t.as_str().is_empty() {
                None
            } else {
                Some(t)
            }
        },
        None => None,
    }
}

/// Pick the input device for `mic` (absent or blank means the system
/// default). A name that matches exactly wins; else the first name that
/// contains the wanted one, ignoring case.
pub fn pick_input_device(mic: Option<&str>, names: &Vec<Option<String>>) -> (r: Result<
    DeviceChoice,
    MicNotFound,
>)
    ensures
        match wanted(opt_view(mic)) {
            None => r == Ok::<DeviceChoice, MicNotFound>(DeviceChoice::Default),
            Some(w) => match r {
                Ok(DeviceChoice::Index(i)) => exact_first(names@, w, i as int) || (no_exact(
                    names@,
                    w,
                ) && partial_first(names@, w, i as int)),
                Ok(DeviceChoice::Default) => false,
                Err(e) => no_exact(names@, w) && no_partial(names@, w) && e.want@ == w
                    && strings_view(e.available@) == present_names(names@),
            },
        },
{
    let want = match mic {
        Some(m) => trimmed(m),
        None => return Ok(DeviceChoice::Default),
    };
    if want.as_str().is_empty() {
        return Ok(DeviceChoice::Default);
    }
    let ghost w = want@;
    assert(wanted(opt_view(mic)) == Some(w));
    let want_lower = crate::text::chars_of(to_lower(want.as_str()).as_str());
    let mut partial_at: Option<usize> = None;
    let mut available: Vec<String> = Vec::new();
    let mut i: usize = 0;
    while i < names.len()
        invariant
            i <= names.len(),
            want@ == w,
            wanted(opt_view(mic)) == Some(w),
            want_lower@ == lowercase(w),
            forall|j: int| 0 <= j < i ==> !exact(#[trigger] names@[j], w),
            match partial_at {
                Some(p) => p < i && partial_first(names@, w, p as int),
                None => forall|j: int| 0 <= j < i ==> !partial(#[trigger] names@[j], w),
            },
            strings_view(available@) == present_names(names@.take(i as int)),
        decreases names.len() - i,
    {
        assert(names@.take(i + 1).drop_last() == names@.take(i as int));
        match &names[i] {
            Some(name) => {
                if str_eq(name.as_str(), want.as_str()) {
                    assert(exact_first(names@, w, i as int));
                    return Ok(DeviceChoice::Index(i));
                }
                if partial_at.is_none() {
                    let lower = crate::text::chars_of(to_lower(name.as_str()).as_str());
                    if contains_chars(&lower, &want_lower) {
                        partial_at = Some(i);
                    }
                }
                let ghost before = available@;
                available.push(name.clone());
                assert(strings_view(available@) =~= strings_view(before).push(name@));
            },
            None => {},
        }
        i = i + 1;
    }
    assert(names@.take(names.len() as int) == names@);
    match partial_at {
        Some(p) => Ok(DeviceChoice::Index(p)),
        None => Err(MicNotFound { want, available }),
    }
}

/// `names` joined with `", "`.
pub open spec fn joined(names: Seq<Seq<char>>) -> Seq<char>
    decreases names.len(),
{
    if names.len() == 0 {
        Seq::empty()
    } else if names.len() == 1 {
        names[0]
    } else {
        joined(names.drop_last()) + ", "@ + names.last()
    }
}

impl MicNotFound {
    /// `microphone "<want>" not found (available: a, b)`
    pub fn message(&self) -> (m: String)
        ensures
            m@ == "microphone "@ + debug_str(self.want@) + " not found (available: "@ + joined(
                strings_view(self.available@),
            ) + ")"@,
    {
        let mut list = String::new();
        let mut i: usize = 0;
        while i < self.available.len()
            invariant
                i <= self.available.len(),
                list@ == joined(strings_view(self.available@.take(i as int))),
            decreases self.available.len() - i,
        {
            let ghost prev = list@;
            assert(strings_view(self.available@.take(i + 1)).drop_last() =~= strings_view(
                self.available@.take(i as int),
            ));
            if i > 0 {
                push_str(&mut list, ", ");
            }
            push_str(&mut list, self.available[i].as_str());
            proof {
                if i == 0 {
                    assert(list@ =~= joined(strings_view(self.available@.take(1))));
                } else {
                    assert(list@ =~= joined(strings_view(self.available@.take(i + 1))));
                }
            }
            i = i + 1;
        }
        assert(self.available@.take(self.available.len() as int) == self.available@);
        let mut m = owned("microphone ");
        let q = debug_quoted(self.want.as_str());
        push_str(&mut m, q.as_str());
        push_str(&mut m, " not found (available: ");
        push_str(&mut m, list.as_str());
        push_str(&mut m, ")");
        m
    }
}

} // verus!
