//! Which of the host's PCM endpoints count as playback devices.
use vstd::prelude::*;
use crate::text::{has_prefix, has_infix, starts_with, contains_text};
use crate::supervisor::strings_view;

verus! {

#[derive(Clone, Copy, PartialEq, Eq, Structural)]
pub enum Direction {
    Playback,
    Capture,
}

/// One endpoint as the audio subsystem describes it.
pub struct DeviceHint {
    pub name: Option<String>,
    pub desc: Option<String>,
    pub direction: Option<Direction>,
}

pub open spec fn text_or_empty(s: Option<String>) -> Seq<char> {
    match s {
        Some(t) => t@,
        None => Seq::empty(),
    }
}

/// A hardware endpoint through the plug layer, not an NVidia output nor an
/// alternate alias, that goes the wanted way (or either way).
pub open spec fn accepts(h: DeviceHint, want: Direction) -> bool {
    let name = text_or_empty(h.name);
    let desc = text_or_empty(h.desc);
    &&& has_prefix(name, "plughw:"@)
    &&& !has_infix(name, "NVidia"@)
    &&& !has_infix(desc, " Alt "@)
    &&& (h.direction is None || h.direction == Some(want))
}

/// The names of the accepted endpoints, in order, each once.
pub open spec fn selected(h: Seq<DeviceHint>, want: Direction) -> Seq<Seq<char>>
    decreases h.len(),
{
    if h.len() == 0 {
        Seq::empty()
    } else {
        let prev = selected(h.drop_last(), want);
        let x = h.last();
        if accepts(x, want) && !prev.contains(text_or_empty(x.name)) {
            prev.push(text_or_empty(x.name))
        } else {
            prev
        }
    }
}

/// Whether the endpoint `h` is a device going the way `want`.
pub fn is_wanted_device(h: &DeviceHint, want: Direction) -> (r: bool)
    ensures
        r == accepts(*h, want),
{
    let name = match &h.name {
        Some(n) => n.as_str(),
        None => "",
    };
    let desc = match &h.desc {
        Some(d) => d.as_str(),
        None => "",
    };
    proof {
        reveal_strlit("");
    }
    let way = match h.direction {
        None => true,
        Some(d) => d == want,
    };
    assert(name@ == text_or_empty(h.name));
    assert(desc@ == text_or_empty(h.desc));
    assert(way == (h.direction is None || h.direction == Some(want)));
    starts_with(name, "plughw:") && !contains_text(name, "NVidia") && !contains_text(desc, " Alt ") && way
}

/// The devices among `hints` that go the way `want`, each name once, in the
/// order found.
pub fn select_pcm_devices(hints: &Vec<DeviceHint>, want: Direction) -> (r: Vec<String>)
    ensures
        strings_view(r@) == selected(hints@, want),
{
    let mut r: Vec<String> = Vec::new();
    let mut i: usize = 0;
    while i < hints.len()
        invariant
            i <= hints@.len(),
            strings_view(r@) == selected(hints@.subrange(0, i as int), want),
        decreases hints.len() - i,
    {
        let h = &hints[i];
        proof {
            assert(hints@.subrange(0, i + 1).drop_last() =~= hints@.subrange(0, i as int));
        }
        if is_wanted_device(h, want) {
            let name = match &h.name {
                Some(n) => n.clone(),
                None => String::new(),
            };
            if !crate::supervisor::present_contains(&r, &name) {
                r.push(name);
                assert(strings_view(r@) =~= selected(hints@.subrange(0, i as int), want).push(text_or_empty(h.name)));
            }
        }
        i = i + 1;
    }
    assert(hints@.subrange(0, hints@.len() as int) =~= hints@);
    r
}

/// A copy of a list of names.
pub fn copy_strings(l: &Vec<String>) -> (r: Vec<String>)
    ensures
        strings_view(r@) == strings_view(l@),
{
    let mut r: Vec<String> = Vec::new();
    let mut i: usize = 0;
    while i < l.len()
        invariant
            i <= l@.len(),
            r@.len() == i,
            forall|j: int| 0 <= j < i ==> #[trigger] r@[j]@ == l@[j]@,
        decreases l.len() - i,
    {
        r.push(l[i].clone());
        i = i + 1;
    }
    assert(strings_view(r@) =~= strings_view(l@));
    r
}

} // verus!
