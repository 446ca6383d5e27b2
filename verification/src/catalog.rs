//! Which capabilities the host can provide, and whether a request fits them.

use vstd::prelude::*;
use crate::feature::{all_features, Feature};
use crate::host::{paint, tinted, Tint};
use crate::text::{splice, join_terminated, pad_right, padded, terminated, views};

verus! {

/// Width of the column that holds the capability labels in a listing.
pub const LABEL_WIDTH: usize = 15;

/// The availability of every capability on a host of which it is known
/// whether it has a window manager and whether it has a sound daemon. The
/// display needs the first and sound the second; the rest is always there.
pub open spec fn availability(window_manager: bool, sound_daemon: bool) -> Map<Feature, bool> {
    Map::total(
        |f: Feature|
            match f {
                Feature::Display => window_manager,
                Feature::Sound => sound_daemon,
                _ => true,
            },
    )
}

/// Whether every capability of `requested` is available in `m`.
pub open spec fn all_available(m: Map<Feature, bool>, requested: Seq<Feature>) -> bool {
    forall|i: int| 0 <= i < requested.len() ==> m[#[trigger] requested[i]]
}

/// Whether `i` is the place of the first capability of `requested` that is
/// not available in `m`.
pub open spec fn first_unavailable_at(
    m: Map<Feature, bool>,
    requested: Seq<Feature>,
    i: int,
) -> bool {
    &&& 0 <= i < requested.len()
    &&& !m[requested[i]]
    &&& forall|j: int| 0 <= j < i ==> m[#[trigger] requested[j]]
}

/// The first capability of `requested` that is not available in `m`, if
/// there is one.
pub open spec fn first_unavailable(m: Map<Feature, bool>, requested: Seq<Feature>) -> Option<
    Feature,
> {
    if all_available(m, requested) {
        None
    } else {
        Some(requested[choose|i: int| first_unavailable_at(m, requested, i)])
    }
}

/// The capability at the first unavailable place is the first unavailable
/// capability.
pub proof fn lemma_first_unavailable(m: Map<Feature, bool>, requested: Seq<Feature>, i: int)
    requires
        first_unavailable_at(m, requested, i),
    ensures
        first_unavailable(m, requested) == Some(requested[i]),
{
    let k = choose|k: int| first_unavailable_at(m, requested, k);
    assert(first_unavailable_at(m, requested, k));
    if k < i {
        assert(m[requested[k]]);
    }
    if i < k {
        assert(m[requested[i]]);
    }
}

/// One line of a listing: the label in its column, an arrow, and the word
/// `available` in green or `unavailable` in red.
pub open spec fn listing_line(f: Feature, available: bool) -> Seq<char> {
    "\t"@ + padded(f.label_text(), LABEL_WIDTH as nat) + " ===> "@ + if available {
        tinted("available"@, Tint::Green)
    } else {
        tinted("unavailable"@, Tint::Red)
    }
}

/// The lines of a listing, one for each capability in catalog order.
pub open spec fn listing_lines(m: Map<Feature, bool>) -> Seq<Seq<char>> {
    Seq::new(all_features().len(), |i: int| listing_line(all_features()[i], m[all_features()[i]]))
}

/// A listing of `m`: an empty line, then the lines, each ended by a newline.
pub open spec fn listing(m: Map<Feature, bool>) -> Seq<char> {
    "\n\n"@ + terminated(listing_lines(m), "\n"@)
}

/// The availability of every capability, fixed when the host was probed.
#[derive(Clone, Copy, Debug, PartialEq, Eq)]
pub struct FeaturesList {
    window_manager: bool,
    sound_daemon: bool,
}

impl View for FeaturesList {
    type V = Map<Feature, bool>;

    closed spec fn view(&self) -> Map<Feature, bool> {
        availability(self.window_manager, self.sound_daemon)
    }
}

impl FeaturesList {
    /// The availability on a host with or without a window manager and with
    /// or without a sound daemon.
    pub fn new(window_manager: bool, sound_daemon: bool) -> (list: Self)
        ensures
            list@ == availability(window_manager, sound_daemon),
    {
        FeaturesList { window_manager, sound_daemon }
    }

    /// Whether the host can provide `feature`.
    pub fn is_available(&self, feature: Feature) -> (b: bool)
        ensures
            b == self@[feature],
    {
        match feature {
            Feature::Display => self.window_manager,
            Feature::Sound => self.sound_daemon,
            _ => true,
        }
    }

    /// The first requested capability that the host cannot provide.
    pub fn first_unavailable(&self, settings: &Vec<Feature>) -> (res: Option<Feature>)
        ensures
            res == first_unavailable(self@, settings@),
    {
        let mut i: usize = 0;
        while i < settings.len()
            invariant
                i <= settings.len(),
                forall|j: int| 0 <= j < i ==> self@[#[trigger] settings@[j]],
            decreases settings.len() - i,
        {
            if !self.is_available(settings[i]) {
                proof {
                    lemma_first_unavailable(self@, settings@, i as int);
                }
                return Some(settings[i]);
            }
            i = i + 1;
        }
        None
    }

    /// Whether the host can provide every requested capability. An empty
    /// request is always valid.
    pub fn validate(&self, settings: &Vec<Feature>) -> (ok: bool)
        ensures
            ok == all_available(self@, settings@),
            settings@.len() == 0 ==> ok,
    {
        self.first_unavailable(settings).is_none()
    }

    /// A listing of the capabilities for a terminal, one line for each.
    pub fn describe(&self) -> (out: String)
        ensures
            out@ == listing(self@),
    {
        let all = Feature::all();
        let mut lines: Vec<String> = Vec::new();
        let mut i: usize = 0;
        while i < all.len()
            invariant
                i <= all.len(),
                all@ == all_features(),
                lines.len() == i,
                forall|j: int| 0 <= j < i ==> (#[trigger] lines@[j])@ == listing_lines(self@)[j],
            decreases all.len() - i,
        {
            let feature = all[i];
            let label = feature.label();
            let column = pad_right(label.as_str(), LABEL_WIDTH);
            let state = if self.is_available(feature) {
                paint("available", Tint::Green)
            } else {
                paint("unavailable", Tint::Red)
            };
            let mut line = splice("\t", column.as_str());
            line.append(" ===> ");
            line.append(state.as_str());
            lines.push(line);
            i = i + 1;
        }
        assert(views(lines@) =~= listing_lines(self@));
        let body = join_terminated(&lines, "\n");
        splice("\n\n", body.as_str())
    }
}

} // verus!
