//! The configuration of a scan.

use uuid::Uuid;
use vstd::prelude::*;

use crate::address::BDAddr;
use crate::filter::{
    list_probe_rounds, match_advertisement, Answers, DeviceProperties, Filter, FilterView,
    PropertiesView,
};
use crate::predicate::{Predicate, RefPredicate};

verus! {

/// Which devices a scan looks for, and when it stops.
pub struct ScanConfig {
    /// Index of the Bluetooth adapter to use. The first found adapter is used by default.
    adapter_index: usize,
    /// Values that the devices have to show.
    filters: Vec<Filter>,
    /// Filters the found devices based on device address.
    address_filter: Option<Box<dyn Predicate<BDAddr>>>,
    /// Filters the found devices based on local name.
    name_filter: Option<Box<dyn RefPredicate<str>>>,
    /// Filters the found devices based on rssi.
    rssi_filter: Option<Box<dyn Predicate<i16>>>,
    /// Filters the found devices based on the identifiers of their services.
    service_filter: Option<Box<dyn RefPredicate<Uuid>>>,
    /// Filters the found devices based on characteristics. Requires a connection to the device.
    characteristics_filter: Option<Box<dyn RefPredicate<[Uuid]>>>,
    /// Maximum results before the scan is stopped.
    max_results: Option<usize>,
    /// The scan is stopped when this many nanoseconds have passed.
    timeout: Option<u128>,
    /// Whether a device is disconnected once its characteristics were read.
    force_disconnect: bool,
}

/// The mathematical value of a [`ScanConfig`].
pub struct ConfigView {
    pub adapter_index: usize,
    pub filters: Seq<FilterView>,
    pub address_filter: Option<Box<dyn Predicate<BDAddr>>>,
    pub name_filter: Option<Box<dyn RefPredicate<str>>>,
    pub rssi_filter: Option<Box<dyn Predicate<i16>>>,
    pub service_filter: Option<Box<dyn RefPredicate<Uuid>>>,
    pub characteristics_filter: Option<Box<dyn RefPredicate<[Uuid]>>>,
    pub max_results: Option<usize>,
    pub timeout: Option<u128>,
    pub force_disconnect: bool,
}

impl View for ScanConfig {
    type V = ConfigView;

    closed spec fn view(&self) -> ConfigView {
        ConfigView {
            adapter_index: self.adapter_index,
            filters: FilterView::each(self.filters@),
            address_filter: self.address_filter,
            name_filter: self.name_filter,
            rssi_filter: self.rssi_filter,
            service_filter: self.service_filter,
            characteristics_filter: self.characteristics_filter,
            max_results: self.max_results,
            timeout: self.timeout,
            force_disconnect: self.force_disconnect,
        }
    }
}

/// Whether a name is there to speak of.
fn is_named(name: &str) -> (named: bool)
    ensures
        named == (name@.len() > 0),
{
    !name.is_empty()
}

impl Default for ScanConfig {
    fn default() -> (config: ScanConfig)
        ensures
            config@ == ConfigView::unrestricted(),
    {
        let config = ScanConfig {
            adapter_index: 0,
            filters: Vec::new(),
            address_filter: None,
            name_filter: None,
            rssi_filter: None,
            service_filter: None,
            characteristics_filter: None,
            max_results: None,
            timeout: None,
            force_disconnect: false,
        };
        proof {
            assert(config@.filters =~= Seq::empty());
        }
        config
    }
}

impl ConfigView {
    /// The configuration that neither selects devices nor stops the scan.
    pub open spec fn unrestricted() -> ConfigView {
        ConfigView {
            adapter_index: 0,
            filters: Seq::empty(),
            address_filter: None,
            name_filter: None,
            rssi_filter: None,
            service_filter: None,
            characteristics_filter: None,
            max_results: None,
            timeout: None,
            force_disconnect: false,
        }
    }
}

impl ConfigView {
    /// The rounds in which a device is probed for characteristics.
    pub open spec fn probe_rounds(self) -> Seq<Option<Uuid>> {
        FilterView::probe_rounds(self.filters, self.characteristics_filter is Some)
    }

    /// A scan that has run for `elapsed` nanoseconds and found `result_count` matches stops.
    pub open spec fn stops(self, elapsed: nat, result_count: nat, stop_requested: bool) -> bool {
        ||| self.timeout matches Some(timeout) && elapsed >= timeout
        ||| self.max_results matches Some(max_results) && result_count >= max_results
        ||| stop_requested
    }

    /// What the predicate on addresses may say about `address`.
    pub open spec fn may_say_of_address(self, address: BDAddr, said: Option<bool>) -> bool {
        match self.address_filter {
            Some(filter) => said matches Some(answer) && filter.may_answer(address, answer),
            None => said is None,
        }
    }

    /// What the predicate on names may say about the name of a device, if it has one.
    pub open spec fn may_say_of_name(self, name: Option<Seq<char>>, said: Option<bool>) -> bool {
        match self.name_filter {
            Some(filter) => said matches Some(answer) && match name {
                Some(name) => exists|text: &str|
                    #[trigger] text@ == name && filter.may_answer(text, answer),
                None => !answer,
            },
            None => said is None,
        }
    }

    /// What the predicate on signal strength may say about that of a device, if it is known.
    pub open spec fn may_say_of_rssi(self, rssi: Option<i16>, said: Option<bool>) -> bool {
        match self.rssi_filter {
            Some(filter) => said matches Some(answer) && match rssi {
                Some(rssi) => filter.may_answer(rssi, answer),
                None => !answer,
            },
            None => said is None,
        }
    }

    /// What the predicate on services may say about those of a device: that it accepts one of
    /// them, or that it rejects them all.
    pub open spec fn may_say_of_services(self, services: Seq<Uuid>, said: Option<bool>) -> bool {
        match self.service_filter {
            Some(filter) => said matches Some(answer) && if answer {
                exists|i: int|
                    0 <= i < services.len() && #[trigger] filter.may_answer(&services[i], true)
            } else {
                forall|i: int|
                    0 <= i < services.len() ==> #[trigger] filter.may_answer(&services[i], false)
            },
            None => said is None,
        }
    }

    /// What the predicate on characteristics may say about those of a device.
    pub open spec fn may_say_of_list(self, uuids: Seq<Uuid>, said: Option<bool>) -> bool {
        match self.characteristics_filter {
            Some(filter) => said matches Some(answer) && exists|list: &[Uuid]|
                #[trigger] list@ == uuids && filter.may_answer(list, answer),
            None => said is None,
        }
    }

    /// `answers` is what the predicates may say about a device that advertises `properties`.
    pub open spec fn may_say_of(self, properties: PropertiesView, answers: Answers) -> bool {
        &&& self.may_say_of_address(properties.address, answers.address)
        &&& self.may_say_of_name(properties.local_name, answers.name)
        &&& self.may_say_of_rssi(properties.rssi, answers.rssi)
        &&& self.may_say_of_services(properties.services, answers.service)
        &&& answers.characteristics is None
    }

    /// `answers` is what the predicates may say about a device with these characteristics.
    pub open spec fn may_say_of_characteristics(self, uuids: Seq<Uuid>, answers: Answers) -> bool {
        &&& self.may_say_of_list(uuids, answers.characteristics)
        &&& answers.address is None
        &&& answers.name is None
        &&& answers.rssi is None
        &&& answers.service is None
    }
}

impl ScanConfig {
    /// Every predicate of the configuration can be asked about every subject.
    #[verifier::type_invariant]
    spec fn predicates_are_total(self) -> bool {
        &&& self.address_filter matches Some(filter) ==> forall|address: BDAddr|
            filter.askable(address)
        &&& self.name_filter matches Some(filter) ==> forall|name: &str| filter.askable(name)
        &&& self.rssi_filter matches Some(filter) ==> forall|rssi: i16| filter.askable(rssi)
        &&& self.service_filter matches Some(filter) ==> forall|uuid: &Uuid| filter.askable(uuid)
        &&& self.characteristics_filter matches Some(filter) ==> forall|uuids: &[Uuid]|
            filter.askable(uuids)
    }

    /// Index of bluetooth adapter to use
    pub fn adapter_index(self, index: usize) -> (config: ScanConfig)
        ensures
            config@ == (ConfigView { adapter_index: index, ..self@ }),
    {
        proof {
            use_type_invariant(&self);
        }
        ScanConfig { adapter_index: index, ..self }
    }

    /// Require that the devices show the values of `filters`, besides those listed before
    pub fn with_filters(self, filters: &[Filter]) -> (config: ScanConfig)
        ensures
            config@ == (ConfigView {
                filters: self@.filters + FilterView::each(filters@),
                ..self@
            }),
    {
        proof {
            use_type_invariant(&self);
        }
        let mut listed = self.filters;
        let ghost before = listed@;
        for i in 0..filters.len()
            invariant
                FilterView::each(listed@) == FilterView::each(before) + FilterView::each(
                    filters@.take(i as int),
                ),
        {
            let ghost prior = listed@;
            listed.push(filters[i].clone());
            proof {
                let added = filters@[i as int]@;
                assert(FilterView::each(listed@) =~= FilterView::each(prior).push(added));
                assert(FilterView::each(filters@.take(i + 1)) =~= FilterView::each(
                    filters@.take(i as int),
                ).push(added));
                assert(FilterView::each(listed@) =~= FilterView::each(before) + FilterView::each(
                    filters@.take(i + 1),
                ));
            }
        }
        assert(filters@.take(filters@.len() as int) =~= filters@);
        ScanConfig { filters: listed, ..self }
    }

    /// Filter scanned devices based on the device address
    pub fn filter_by_address(
        self,
        func: impl Fn(BDAddr) -> bool + Send + Sync + 'static,
    ) -> (config: ScanConfig)
        requires
            forall|address: BDAddr| call_requires(func, (address,)),
        ensures
            config@ == (ConfigView { address_filter: config@.address_filter, ..self@ }),
            config@.address_filter matches Some(filter) && forall|address: BDAddr, answer: bool|
                filter.may_answer(address, answer) == call_ensures(func, (address,), answer),
    {
        proof {
            use_type_invariant(&self);
        }
        let filter: Box<dyn Predicate<BDAddr>> = Box::new(func);
        assert(forall|address: BDAddr| filter.askable(address));
        ScanConfig { address_filter: Some(filter), ..self }
    }

    /// Filter scanned devices based on the device name
    pub fn filter_by_name(
        self,
        func: impl Fn(&str) -> bool + Send + Sync + 'static,
    ) -> (config: ScanConfig)
        requires
            forall|name: &str| call_requires(func, (name,)),
        ensures
            config@ == (ConfigView { name_filter: config@.name_filter, ..self@ }),
            config@.name_filter matches Some(filter) && forall|name: &str, answer: bool|
                filter.may_answer(name, answer) == call_ensures(func, (name,), answer),
    {
        proof {
            use_type_invariant(&self);
        }
        let filter: Box<dyn RefPredicate<str>> = Box::new(func);
        assert(forall|name: &str| filter.askable(name));
        ScanConfig { name_filter: Some(filter), ..self }
    }

    /// Filter scanned devices based on the signal strength
    pub fn filter_by_rssi(
        self,
        func: impl Fn(i16) -> bool + Send + Sync + 'static,
    ) -> (config: ScanConfig)
        requires
            forall|rssi: i16| call_requires(func, (rssi,)),
        ensures
            config@ == (ConfigView { rssi_filter: config@.rssi_filter, ..self@ }),
            config@.rssi_filter matches Some(filter) && forall|rssi: i16, answer: bool|
                filter.may_answer(rssi, answer) == call_ensures(func, (rssi,), answer),
    {
        proof {
            use_type_invariant(&self);
        }
        let filter: Box<dyn Predicate<i16>> = Box::new(func);
        assert(forall|rssi: i16| filter.askable(rssi));
        ScanConfig { rssi_filter: Some(filter), ..self }
    }

    /// Filter scanned devices based on the identifiers of their services
    pub fn filter_by_service(
        self,
        func: impl Fn(&Uuid) -> bool + Send + Sync + 'static,
    ) -> (config: ScanConfig)
        requires
            forall|uuid: &Uuid| call_requires(func, (uuid,)),
        ensures
            config@ == (ConfigView { service_filter: config@.service_filter, ..self@ }),
            config@.service_filter matches Some(filter) && forall|uuid: &Uuid, answer: bool|
                filter.may_answer(uuid, answer) == call_ensures(func, (uuid,), answer),
    {
        proof {
            use_type_invariant(&self);
        }
        let filter: Box<dyn RefPredicate<Uuid>> = Box::new(func);
        assert(forall|uuid: &Uuid| filter.askable(uuid));
        ScanConfig { service_filter: Some(filter), ..self }
    }

    /// Filter scanned devices based on available characteristics
    pub fn filter_by_characteristics(
        self,
        func: impl Fn(&[Uuid]) -> bool + Send + Sync + 'static,
    ) -> (config: ScanConfig)
        requires
            forall|uuids: &[Uuid]| call_requires(func, (uuids,)),
        ensures
            config@ == (ConfigView {
                characteristics_filter: config@.characteristics_filter,
                ..self@
            }),
            config@.characteristics_filter matches Some(filter)
                && forall|uuids: &[Uuid], answer: bool|
                filter.may_answer(uuids, answer) == call_ensures(func, (uuids,), answer),
    {
        proof {
            use_type_invariant(&self);
        }
        let filter: Box<dyn RefPredicate<[Uuid]>> = Box::new(func);
        assert(forall|uuids: &[Uuid]| filter.askable(uuids));
        ScanConfig { characteristics_filter: Some(filter), ..self }
    }

    /// Stop the scan after given number of matches
    pub fn stop_after_matches(self, max_results: usize) -> (config: ScanConfig)
        ensures
            config@ == (ConfigView { max_results: Some(max_results), ..self@ }),
    {
        proof {
            use_type_invariant(&self);
        }
        ScanConfig { max_results: Some(max_results), ..self }
    }

    /// Stop the scan after the first match
    pub fn stop_after_first_match(self) -> (config: ScanConfig)
        ensures
            config@ == (ConfigView { max_results: Some(1), ..self@ }),
    {
        self.stop_after_matches(1)
    }

    /// Stop the scan after given number of nanoseconds
    pub fn stop_after_timeout(self, timeout: u128) -> (config: ScanConfig)
        ensures
            config@ == (ConfigView { timeout: Some(timeout), ..self@ }),
    {
        proof {
            use_type_invariant(&self);
        }
        ScanConfig { timeout: Some(timeout), ..self }
    }

    /// Disconnect from a device once its characteristics were read
    pub fn force_disconnect(self, force_disconnect: bool) -> (config: ScanConfig)
        ensures
            config@ == (ConfigView { force_disconnect, ..self@ }),
    {
        proof {
            use_type_invariant(&self);
        }
        ScanConfig { force_disconnect, ..self }
    }

    /// Require that the scanned devices have a name
    ///
    /// A filter on the name that is there already stays as it is: no device without a name
    /// passes it.
    pub fn require_name(self) -> (config: ScanConfig)
        ensures
            self@.name_filter is Some ==> config@ == self@,
            self@.name_filter is None ==> {
                &&& config@ == (ConfigView { name_filter: config@.name_filter, ..self@ })
                &&& config@.name_filter matches Some(filter) && forall|name: &str, answer: bool|
                    filter.may_answer(name, answer) ==> answer == (name@.len() > 0)
            },
    {
        if self.name_filter.is_none() {
            self.filter_by_name(is_named)
        } else {
            self
        }
    }

    /// The index of the adapter that the scan uses.
    pub(crate) fn chosen_adapter(&self) -> (index: usize)
        ensures
            index == self@.adapter_index,
    {
        self.adapter_index
    }

    /// How many nanoseconds the scan may last.
    pub(crate) fn duration(&self) -> (timeout: Option<u128>)
        ensures
            timeout == self@.timeout,
    {
        self.timeout
    }

    /// Whether a device is disconnected once its characteristics were read.
    pub(crate) fn disconnects(&self) -> (forced: bool)
        ensures
            forced == self@.force_disconnect,
    {
        self.force_disconnect
    }

    /// Whether the advertisement of a device satisfies the configuration, given what the
    /// predicates said about the device.
    pub fn admits(&self, properties: &DeviceProperties, answers: &Answers) -> (admitted: bool)
        ensures
            admitted == properties@.satisfy(self@.filters, *answers),
    {
        match_advertisement(self.filters.as_slice(), properties, answers)
    }

    /// The rounds in which a device is probed for characteristics.
    pub fn probe_rounds(&self) -> (rounds: Vec<Option<Uuid>>)
        ensures
            rounds@ == self@.probe_rounds(),
    {
        list_probe_rounds(self.filters.as_slice(), self.characteristics_filter.is_some())
    }

    /// Whether a scan stops that has run for `elapsed` nanoseconds and found `result_count`
    /// matches.
    pub fn stops(&self, elapsed: u128, result_count: usize, stop_requested: bool) -> (stops: bool)
        ensures
            stops == self@.stops(elapsed as nat, result_count as nat, stop_requested),
    {
        let timeout_reached: bool = match self.timeout {
            Some(timeout) => elapsed >= timeout,
            None => false,
        };
        let max_result_reached: bool = match self.max_results {
            Some(max_results) => result_count >= max_results,
            None => false,
        };
        timeout_reached || max_result_reached || stop_requested
    }

    /// Asks the predicates about what a device advertises. A device without a name has none that
    /// a filter on names could accept, and likewise for the signal strength and the services.
    pub fn ask_about(&self, properties: &DeviceProperties) -> (answers: Answers)
        ensures
            self@.may_say_of(properties@, answers),
    {
        proof {
            use_type_invariant(self);
        }
        let address: Option<bool> = match &self.address_filter {
            Some(filter) => Some(filter.ask(properties.address)),
            None => None,
        };
        let name: Option<bool> = match &self.name_filter {
            Some(filter) => match &properties.local_name {
                Some(local_name) => Some(filter.ask(local_name.as_str())),
                None => Some(false),
            },
            None => None,
        };
        let rssi: Option<bool> = match &self.rssi_filter {
            Some(filter) => match properties.rssi {
                Some(rssi) => Some(filter.ask(rssi)),
                None => Some(false),
            },
            None => None,
        };
        let service: Option<bool> = match &self.service_filter {
            Some(filter) => {
                let mut found: bool = false;
                let mut i: usize = 0;
                while i < properties.services.len() && !found
                    invariant
                        i <= properties.services@.len(),
                        forall|uuid: &Uuid| filter.askable(uuid),
                        found ==> exists|j: int|
                            0 <= j < properties.services@.len() && #[trigger] filter.may_answer(
                                &properties.services@[j],
                                true,
                            ),
                        !found ==> forall|j: int|
                            0 <= j < i ==> #[trigger] filter.may_answer(
                                &properties.services@[j],
                                false,
                            ),
                    decreases properties.services@.len() - i,
                {
                    found = filter.ask(&properties.services[i]);
                    i = i + 1;
                }
                Some(found)
            },
            None => None,
        };
        Answers { address, name, rssi, service, characteristics: None }
    }

    /// Asks the predicate on characteristics about those of a device.
    pub fn ask_about_characteristics(&self, uuids: &[Uuid]) -> (answers: Answers)
        ensures
            self@.may_say_of_characteristics(uuids@, answers),
    {
        proof {
            use_type_invariant(self);
        }
        let characteristics: Option<bool> = match &self.characteristics_filter {
            Some(filter) => Some(filter.ask(uuids)),
            None => None,
        };
        Answers { address: None, name: None, rssi: None, service: None, characteristics }
    }
}

} // verus!
