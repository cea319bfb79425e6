//! Filters on what a device advertises.

use uuid::Uuid;
use vstd::prelude::*;

use crate::address::BDAddr;
use crate::identifier::position_of;

verus! {

/// A value that a device has to show in order to match.
#[derive(Debug, Hash, Eq, PartialEq)]
pub enum Filter {
    /// The device has this address.
    Address(BDAddr),
    /// The device, once connected, has a characteristic with this identifier.
    Characteristic(Uuid),
    /// The device has this local name.
    Name(String),
    /// The signal of the device is at least this strong.
    Rssi(i16),
    /// The device advertises a service with this identifier.
    Service(Uuid),
}

/// The mathematical value of a [`Filter`].
pub enum FilterView {
    Address(BDAddr),
    Characteristic(Uuid),
    Name(Seq<char>),
    Rssi(i16),
    Service(Uuid),
}

/// What a device advertises about itself.
#[derive(Debug)]
pub struct DeviceProperties {
    /// The address of the device.
    pub address: BDAddr,
    /// The local name, if the device gives one.
    pub local_name: Option<String>,
    /// The signal strength, if it is known.
    pub rssi: Option<i16>,
    /// The identifiers of the advertised services.
    pub services: Vec<Uuid>,
}

/// The mathematical value of [`DeviceProperties`].
pub struct PropertiesView {
    pub address: BDAddr,
    pub local_name: Option<Seq<char>>,
    pub rssi: Option<i16>,
    pub services: Seq<Uuid>,
}

/// What the predicates of a configuration said about a device. An answer is there exactly where
/// a predicate was asked.
#[derive(Clone, Copy, Debug, PartialEq, Eq)]
pub struct Answers {
    /// On the address.
    pub address: Option<bool>,
    /// On the local name.
    pub name: Option<bool>,
    /// On the signal strength.
    pub rssi: Option<bool>,
    /// On the services.
    pub service: Option<bool>,
    /// On the characteristics.
    pub characteristics: Option<bool>,
}

impl View for Filter {
    type V = FilterView;

    open spec fn view(&self) -> FilterView {
        match self {
            Filter::Address(address) => FilterView::Address(*address),
            Filter::Characteristic(uuid) => FilterView::Characteristic(*uuid),
            Filter::Name(name) => FilterView::Name(name@),
            Filter::Rssi(rssi) => FilterView::Rssi(*rssi),
            Filter::Service(uuid) => FilterView::Service(*uuid),
        }
    }
}

impl View for DeviceProperties {
    type V = PropertiesView;

    open spec fn view(&self) -> PropertiesView {
        PropertiesView {
            address: self.address,
            local_name: match self.local_name {
                Some(name) => Some(name@),
                None => None,
            },
            rssi: self.rssi,
            services: self.services@,
        }
    }
}

impl Clone for Filter {
    fn clone(&self) -> (copy: Filter)
        ensures
            copy@ == self@,
    {
        match self {
            Filter::Address(address) => Filter::Address(*address),
            Filter::Characteristic(uuid) => Filter::Characteristic(*uuid),
            Filter::Name(name) => Filter::Name(name.clone()),
            Filter::Rssi(rssi) => Filter::Rssi(*rssi),
            Filter::Service(uuid) => Filter::Service(*uuid),
        }
    }
}

impl Answers {
    /// The answers of a configuration in which no predicate was asked.
    pub open spec fn unasked() -> Answers {
        Answers { address: None, name: None, rssi: None, service: None, characteristics: None }
    }

    /// No predicate on the advertisement rejected the device.
    pub open spec fn content_with_advertisement(self) -> bool {
        &&& self.address != Some(false)
        &&& self.name != Some(false)
        &&& self.rssi != Some(false)
        &&& self.service != Some(false)
    }

    /// Makes the answers of a configuration in which no predicate was asked.
    pub fn none() -> (answers: Answers)
        ensures
            answers == Answers::unasked(),
    {
        Answers { address: None, name: None, rssi: None, service: None, characteristics: None }
    }
}

impl FilterView {
    /// The device shows the value of the filter. A filter on a characteristic is silent on the
    /// advertisement: the device is probed for it.
    pub open spec fn describes(self, properties: PropertiesView) -> bool {
        match self {
            FilterView::Address(address) => properties.address == address,
            FilterView::Characteristic(_) => true,
            FilterView::Name(name) => properties.local_name == Some(name),
            FilterView::Rssi(least) => properties.rssi matches Some(rssi) && rssi >= least,
            FilterView::Service(uuid) => properties.services.contains(uuid),
        }
    }

    /// The answer of the predicate on the same property, where it was asked.
    pub open spec fn overruled_by(self, answers: Answers) -> Option<bool> {
        match self {
            FilterView::Address(_) => answers.address,
            FilterView::Characteristic(_) => None,
            FilterView::Name(_) => answers.name,
            FilterView::Rssi(_) => answers.rssi,
            FilterView::Service(_) => answers.service,
        }
    }

    /// The filter lets the device through. A predicate on the same property decides in place of
    /// the value in the filter.
    pub open spec fn passes(self, properties: PropertiesView, answers: Answers) -> bool {
        match self.overruled_by(answers) {
            Some(answer) => answer,
            None => self.describes(properties),
        }
    }
}

impl FilterView {
    /// The values of a list of filters.
    pub open spec fn each(filters: Seq<Filter>) -> Seq<FilterView> {
        Seq::new(filters.len(), |i: int| filters[i]@)
    }

    /// The identifiers in the filters on characteristics, in order.
    pub open spec fn characteristics(filters: Seq<FilterView>) -> Seq<Uuid>
        decreases filters.len(),
    {
        if filters.len() == 0 {
            Seq::empty()
        } else {
            let before = FilterView::characteristics(filters.drop_last());
            match filters.last() {
                FilterView::Characteristic(uuid) => before.push(uuid),
                _ => before,
            }
        }
    }

    /// The rounds in which a device is probed: one for each identifier that is listed, or a
    /// single one for the predicate alone where none is listed.
    pub open spec fn probe_rounds(
        filters: Seq<FilterView>,
        has_predicate: bool,
    ) -> Seq<Option<Uuid>> {
        let listed = FilterView::characteristics(filters);
        if listed.len() == 0 && has_predicate {
            seq![None]
        } else {
            listed.map_values(|uuid: Uuid| Some(uuid))
        }
    }
}

impl PropertiesView {
    /// The advertisement of a device satisfies every predicate that was asked and every filter.
    pub open spec fn satisfy(self, filters: Seq<FilterView>, answers: Answers) -> bool {
        &&& answers.content_with_advertisement()
        &&& forall|i: int| 0 <= i < filters.len() ==> (#[trigger] filters[i]).passes(self, answers)
    }
}

impl Filter {
    /// Whether the filter lets a device with these properties through, given what the predicates
    /// said about the device.
    pub fn admits(&self, properties: &DeviceProperties, answers: &Answers) -> (admitted: bool)
        ensures
            admitted == self@.passes(properties@, *answers),
    {
        match self {
            Filter::Name(name) => match answers.name {
                Some(answer) => answer,
                None => match &properties.local_name {
                    Some(local_name) => *local_name == *name,
                    None => false,
                },
            },
            Filter::Rssi(least) => match answers.rssi {
                Some(answer) => answer,
                None => match properties.rssi {
                    Some(rssi) => rssi >= *least,
                    None => false,
                },
            },
            Filter::Service(uuid) => match answers.service {
                Some(answer) => answer,
                None => position_of(properties.services.as_slice(), uuid).is_some(),
            },
            Filter::Address(address) => match answers.address {
                Some(answer) => answer,
                None => properties.address == *address,
            },
            Filter::Characteristic(_) => true,
        }
    }
}

/// Whether the advertisement of a device satisfies every predicate that was asked and every
/// filter of a list.
pub fn match_advertisement(
    filters: &[Filter],
    properties: &DeviceProperties,
    answers: &Answers,
) -> (passed: bool)
    ensures
        passed == properties@.satisfy(FilterView::each(filters@), *answers),
{
    let mut passed: bool = true;
    for i in 0..filters.len()
        invariant
            passed == forall|j: int|
                0 <= j < i ==> (#[trigger] FilterView::each(filters@)[j]).passes(properties@, *answers),
    {
        let admitted: bool = filters[i].admits(properties, answers);
        proof {
            assert(FilterView::each(filters@)[i as int] == filters@[i as int]@);
        }
        passed = passed && admitted;
    }
    let content: bool = match answers.address {
        Some(answer) => answer,
        None => true,
    } && match answers.name {
        Some(answer) => answer,
        None => true,
    } && match answers.rssi {
        Some(answer) => answer,
        None => true,
    } && match answers.service {
        Some(answer) => answer,
        None => true,
    };
    passed && content
}

/// Lists the rounds in which a device is probed for characteristics.
pub fn list_probe_rounds(filters: &[Filter], has_predicate: bool) -> (rounds: Vec<Option<Uuid>>)
    ensures
        rounds@ == FilterView::probe_rounds(FilterView::each(filters@), has_predicate),
{
    let ghost views = FilterView::each(filters@);
    let mut rounds: Vec<Option<Uuid>> = Vec::new();
    for i in 0..filters.len()
        invariant
            views == FilterView::each(filters@),
            rounds@ == FilterView::characteristics(views.take(i as int)).map_values(
                |uuid: Uuid| Some(uuid),
            ),
    {
        proof {
            assert(views.take(i + 1).drop_last() =~= views.take(i as int));
            assert(views.take(i + 1).last() == filters@[i as int]@);
        }
        if let Filter::Characteristic(uuid) = &filters[i] {
            rounds.push(Some(*uuid));
        }
        proof {
            assert(rounds@ =~= FilterView::characteristics(views.take(i + 1)).map_values(
                |uuid: Uuid| Some(uuid),
            ));
        }
    }
    proof {
        assert(views.take(filters@.len() as int) =~= views);
    }
    if rounds.len() == 0 && has_predicate {
        rounds.push(None);
    }
    rounds
}

} // verus!
