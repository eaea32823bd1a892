//! Which code numbers and addresses the contracts of a chain have.
use crate::config::{DeployInfo, DeployInfoView};
use crate::error::{ErrorView, ProcessError};
use crate::names::{distinct, entries_are_the_map, entries_map, NameMap};
use vstd::prelude::*;

verus! {

/// The contracts that are known by name.
#[derive(Debug)]
pub struct ContractMap {
    entries: NameMap<DeployInfo>,
}

impl View for ContractMap {
    type V = Map<Seq<char>, DeployInfoView>;

    closed spec fn view(&self) -> Map<Seq<char>, DeployInfoView> {
        self.entries@
    }
}

/// What is known of the contract `name`: nothing, where it has never been entered.
pub open spec fn known(map: Map<Seq<char>, DeployInfoView>, name: Seq<char>) -> DeployInfoView {
    if map.contains_key(name) {
        map[name]
    } else {
        DeployInfoView { code_id: None, address: None }
    }
}

/// The code number of the contract `name`, or that it has not been stored.
pub open spec fn code_id_of(map: Map<Seq<char>, DeployInfoView>, name: Seq<char>) -> Result<
    u64,
    ErrorView,
> {
    match known(map, name).code_id {
        Some(code_id) => Ok(code_id),
        None => Err(ErrorView::Registry(name + " has not been stored"@)),
    }
}

/// The address of the contract `name`, or that it has not been instantiated.
pub open spec fn address_of(map: Map<Seq<char>, DeployInfoView>, name: Seq<char>) -> Result<
    Seq<char>,
    ErrorView,
> {
    match known(map, name).address {
        Some(address) => Ok(address),
        None => Err(ErrorView::Registry(name + " has not been instantiated"@)),
    }
}

/// The map in which the contract `name` has the number `code_id`, and is otherwise as before.
pub open spec fn with_code_id(
    map: Map<Seq<char>, DeployInfoView>,
    name: Seq<char>,
    code_id: u64,
) -> Map<Seq<char>, DeployInfoView> {
    map.insert(
        name,
        DeployInfoView { code_id: Some(code_id), address: known(map, name).address },
    )
}

/// The map in which the contract `name` stands at `address`, and is otherwise as before.
pub open spec fn with_address(
    map: Map<Seq<char>, DeployInfoView>,
    name: Seq<char>,
    address: Seq<char>,
) -> Map<Seq<char>, DeployInfoView> {
    map.insert(
        name,
        DeployInfoView { code_id: known(map, name).code_id, address: Some(address) },
    )
}

impl ContractMap {
    /// The registry that starts out with `entries`.
    pub fn new(entries: NameMap<DeployInfo>) -> (map: Self)
        ensures
            map@ == entries@,
    {
        ContractMap { entries }
    }

    /// The number of the code that was stored under `name`.
    pub fn code_id(&self, name: &str) -> (result: Result<u64, ProcessError>)
        ensures
            crate::error::plain_outcome(result) == code_id_of(self@, name@),
    {
        match self.entries.get(name) {
            Some(DeployInfo { code_id: Some(code_id), .. }) => Ok(*code_id),
            _ => Err(ProcessError::Registry(name.to_owned().concat(" has not been stored"))),
        }
    }

    /// The address at which the contract `name` was instantiated.
    pub fn address(&self, name: &str) -> (result: Result<String, ProcessError>)
        ensures
            crate::error::outcome(result) == address_of(self@, name@),
    {
        match self.entries.get(name) {
            Some(DeployInfo { address: Some(address), .. }) => Ok(address.clone()),
            _ => Err(ProcessError::Registry(name.to_owned().concat(" has not been instantiated"))),
        }
    }

    /// Enters the address of `name`, in place of an earlier one. A contract that was never stored
    /// may have an address: those that another contract created are found by asking it.
    pub fn add_address(&mut self, name: &str, address: &str) -> (result: Result<(), ProcessError>)
        ensures
            result is Ok,
            final(self)@ == with_address(old(self)@, name@, address@),
    {
        let info = match self.entries.remove(name) {
            Some(info) => info,
            None => DeployInfo::default(),
        };
        self.entries.insert(
            name,
            DeployInfo { code_id: info.code_id, address: Some(address.to_owned()) },
        );
        assert(self@ =~= with_address(old(self)@, name@, address@));
        Ok(())
    }

    /// Enters the code number of `name`, in place of an earlier one.
    pub fn register(&mut self, name: &str, code_id: u64)
        ensures
            final(self)@ == with_code_id(old(self)@, name@, code_id),
    {
        let info = match self.entries.remove(name) {
            Some(info) => info,
            None => DeployInfo::default(),
        };
        self.entries.insert(name, DeployInfo { code_id: Some(code_id), address: info.address });
        assert(self@ =~= with_code_id(old(self)@, name@, code_id));
    }

    /// All that is known, to be kept for another run.
    pub fn deploy_info(&self) -> (entries: &NameMap<DeployInfo>)
        ensures
            entries@ == self@,
    {
        &self.entries
    }
}

impl Clone for ContractMap {
    /// Restores the registry from what is kept of it, which loses nothing.
    fn clone(&self) -> (copy: Self)
        ensures
            copy@ == self@,
    {
        ContractMap::new(self.deploy_info().clone())
    }
}

/// Whether every entry of `left` stands in `right` too, whatever its place.
pub open spec fn holds_entries(
    right: Seq<(String, DeployInfo)>,
    left: Seq<(String, DeployInfo)>,
) -> bool {
    forall|i: int|
        0 <= i < left.len() ==> exists|j: int|
            0 <= j < right.len() && (#[trigger] right[j]).0@ == (#[trigger] left[i]).0@
                && right[j].1@ == left[i].1@
}

/// A registry that is kept as a list of its entries, and restored from such a list, loses nothing:
/// the restored one answers for every name as the first one did, in whatever order the entries
/// come back.
pub proof fn restored_registry_answers_alike(
    kept: Seq<(String, DeployInfo)>,
    read: Seq<(String, DeployInfo)>,
    name: Seq<char>,
)
    requires
        distinct(kept),
        distinct(read),
        holds_entries(read, kept),
        holds_entries(kept, read),
    ensures
        entries_map(read) == entries_map(kept),
        code_id_of(entries_map(read), name) == code_id_of(entries_map(kept), name),
        address_of(entries_map(read), name) == address_of(entries_map(kept), name),
{
    entries_are_the_map(kept);
    entries_are_the_map(read);
    let left = entries_map(read);
    let right = entries_map(kept);
    assert forall|key: Seq<char>| left.contains_key(key) == right.contains_key(key) by {
        if left.contains_key(key) {
            let i = choose|i: int| 0 <= i < read.len() && (#[trigger] read[i]).0@ == key;
            let j = choose|j: int|
                0 <= j < kept.len() && (#[trigger] kept[j]).0@ == read[i].0@ && kept[j].1@
                    == read[i].1@;
            assert(kept[j].0@ == key);
        }
        if right.contains_key(key) {
            let i = choose|i: int| 0 <= i < kept.len() && (#[trigger] kept[i]).0@ == key;
            let j = choose|j: int|
                0 <= j < read.len() && (#[trigger] read[j]).0@ == kept[i].0@ && read[j].1@
                    == kept[i].1@;
            assert(read[j].0@ == key);
        }
    }
    assert forall|key: Seq<char>| left.contains_key(key) implies left[key] == right[key] by {
        let i = choose|i: int| 0 <= i < read.len() && (#[trigger] read[i]).0@ == key;
        let j = choose|j: int|
            0 <= j < kept.len() && (#[trigger] kept[j]).0@ == read[i].0@ && kept[j].1@
                == read[i].1@;
        assert(kept[j].0@ == key);
    }
    assert(left =~= right);
}

/// A contract has the number under which it was last stored and the address that was last entered
/// for it, whichever of the two came first.
pub proof fn registry_answers_the_last_entry(
    map: Map<Seq<char>, DeployInfoView>,
    name: Seq<char>,
    code_id: u64,
    address: Seq<char>,
)
    ensures
        code_id_of(with_code_id(map, name, code_id), name) == Ok::<u64, ErrorView>(code_id),
        address_of(with_code_id(map, name, code_id), name) == address_of(map, name),
        address_of(with_address(map, name, address), name) == Ok::<Seq<char>, ErrorView>(address),
        code_id_of(with_address(map, name, address), name) == code_id_of(map, name),
        with_address(with_code_id(map, name, code_id), name, address) == with_code_id(
            with_address(map, name, address),
            name,
            code_id,
        ),
{
    assert(with_address(with_code_id(map, name, code_id), name, address) =~= with_code_id(
        with_address(map, name, address),
        name,
        code_id,
    ));
}

/// What is entered for one name says nothing of another: a named variant is never mistaken for the
/// contract that it is a variant of.
pub proof fn registry_keeps_names_apart(
    map: Map<Seq<char>, DeployInfoView>,
    name: Seq<char>,
    other: Seq<char>,
    code_id: u64,
    address: Seq<char>,
)
    requires
        name != other,
    ensures
        code_id_of(with_code_id(map, name, code_id), other) == code_id_of(map, other),
        address_of(with_code_id(map, name, code_id), other) == address_of(map, other),
        code_id_of(with_address(map, name, address), other) == code_id_of(map, other),
        address_of(with_address(map, name, address), other) == address_of(map, other),
{
}

/// The registry answers what is entered for a name, and refuses, by that name, what is not: a
/// contract of which nothing is known has neither a number nor an address.
pub proof fn registry_answers_what_it_holds(
    map: Map<Seq<char>, DeployInfoView>,
    name: Seq<char>,
    code_id: u64,
    address: Seq<char>,
)
    ensures
        code_id_of(map, name) == Ok::<u64, ErrorView>(code_id) <==> map.contains_key(name)
            && map[name].code_id == Some(code_id),
        address_of(map, name) == Ok::<Seq<char>, ErrorView>(address) <==> map.contains_key(name)
            && map[name].address == Some(address),
        code_id_of(map, name) matches Err(error) ==> error == ErrorView::Registry(
            name + " has not been stored"@,
        ),
        address_of(map, name) matches Err(error) ==> error == ErrorView::Registry(
            name + " has not been instantiated"@,
        ),
{
}

/// Entering a number or an address for a name makes that name known, and leaves the other names as
/// they are.
pub proof fn entering_touches_one_name(
    map: Map<Seq<char>, DeployInfoView>,
    name: Seq<char>,
    code_id: u64,
    address: Seq<char>,
)
    ensures
        with_code_id(map, name, code_id).dom() == map.dom().insert(name),
        with_address(map, name, address).dom() == map.dom().insert(name),
        with_code_id(map, name, code_id).remove(name) == map.remove(name),
        with_address(map, name, address).remove(name) == map.remove(name),
        with_code_id(map, name, code_id)[name].code_id == Some(code_id),
        with_address(map, name, address)[name].address == Some(address),
        map.contains_key(name) ==> with_code_id(map, name, code_id)[name].address
            == map[name].address,
        map.contains_key(name) ==> with_address(map, name, address)[name].code_id
            == map[name].code_id,
        !map.contains_key(name) ==> with_code_id(map, name, code_id)[name].address is None,
        !map.contains_key(name) ==> with_address(map, name, address)[name].code_id is None,
{
    assert(with_code_id(map, name, code_id).dom() =~= map.dom().insert(name));
    assert(with_address(map, name, address).dom() =~= map.dom().insert(name));
    assert(with_code_id(map, name, code_id).remove(name) =~= map.remove(name));
    assert(with_address(map, name, address).remove(name) =~= map.remove(name));
}

} // verus!
