//! The closed set of host capabilities that can be bridged into a container.

use vstd::prelude::*;

verus! {

/// A host capability that a containerised program may be granted.
#[derive(Clone, Copy, Debug, PartialEq, Eq, Structural, Hash)]
pub enum Feature {
    Display,
    Sound,
    Notification,
    Devices,
    HomePersistent,
    Time,
}

/// Every capability, in catalog order.
pub open spec fn all_features() -> Seq<Feature> {
    seq![
        Feature::Display,
        Feature::Sound,
        Feature::Notification,
        Feature::Devices,
        Feature::HomePersistent,
        Feature::Time,
    ]
}

impl Feature {
    /// The human-readable label of the capability.
    pub open spec fn label_text(self) -> Seq<char> {
        match self {
            Feature::Display => "Display"@,
            Feature::Sound => "Sound"@,
            Feature::Notification => "Notification"@,
            Feature::Devices => "Devices"@,
            Feature::HomePersistent => "Home persistent"@,
            Feature::Time => "Timezone"@,
        }
    }

    /// The human-readable label of the capability.
    pub fn label(&self) -> (s: String)
        ensures
            s@ == self.label_text(),
    {
        match self {
            Feature::Display => "Display".to_owned(),
            Feature::Sound => "Sound".to_owned(),
            Feature::Notification => "Notification".to_owned(),
            Feature::Devices => "Devices".to_owned(),
            Feature::HomePersistent => "Home persistent".to_owned(),
            Feature::Time => "Timezone".to_owned(),
        }
    }

    /// Every capability, in catalog order.
    pub fn all() -> (v: Vec<Feature>)
        ensures
            v@ == all_features(),
    {
        let v = vec![
            Feature::Display,
            Feature::Sound,
            Feature::Notification,
            Feature::Devices,
            Feature::HomePersistent,
            Feature::Time,
        ];
        assert(v@ =~= all_features());
        v
    }
}

/// Every capability occurs in the catalog.
pub proof fn lemma_catalog_complete(f: Feature)
    ensures
        all_features().contains(f),
{
    let all = all_features();
    match f {
        Feature::Display => assert(all[0] == f),
        Feature::Sound => assert(all[1] == f),
        Feature::Notification => assert(all[2] == f),
        Feature::Devices => assert(all[3] == f),
        Feature::HomePersistent => assert(all[4] == f),
        Feature::Time => assert(all[5] == f),
    }
}

} // verus!
