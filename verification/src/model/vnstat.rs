//! The records of the traffic monitor, as its report lays them out.

use vstd::prelude::*;
use vstd::string::*;

verus! {

/// A whole report.
#[derive(Debug, Clone)]
pub struct VnstatData {
    pub interfaces: Vec<Interface>,
    pub jsonversion: String,
    pub vnstatversion: String,
}

/// Everything the monitor knows of one interface.
#[derive(Debug, Clone)]
pub struct Interface {
    pub alias: String,
    pub created: Created,
    pub name: String,
    pub traffic: Traffic,
    pub updated: Updated,
}

#[derive(Debug, Clone)]
pub struct Created {
    pub date: Date,
    pub timestamp: i64,
}

#[derive(Debug, Clone)]
pub struct Updated {
    pub date: Date,
    pub time: Time,
    pub timestamp: i64,
}

#[derive(Debug, Clone)]
pub struct Date {
    pub day: Option<u8>,
    pub month: Option<u8>,
    pub year: i32,
}

#[derive(Debug, Clone)]
pub struct Time {
    pub hour: u8,
    pub minute: u8,
}

#[derive(Debug, Clone)]
pub struct Traffic {
    pub day: Vec<DayRecord>,
    pub fiveminute: Vec<FiveMinuteRecord>,
    pub hour: Vec<HourRecord>,
    pub month: Vec<MonthRecord>,
    pub top: Vec<TopRecord>,
    pub total: Total,
    pub year: Vec<YearRecord>,
}

#[derive(Debug, Clone)]
pub struct DayRecord {
    pub date: Date,
    pub id: u32,
    pub rx: u64,
    pub timestamp: i64,
    pub tx: u64,
}

#[derive(Debug, Clone)]
pub struct FiveMinuteRecord {
    pub date: Date,
    pub id: u32,
    pub rx: u64,
    pub time: Time,
    pub timestamp: i64,
    pub tx: u64,
}

#[derive(Debug, Clone)]
pub struct HourRecord {
    pub date: Date,
    pub id: u32,
    pub rx: u64,
    pub time: Time,
    pub timestamp: i64,
    pub tx: u64,
}

#[derive(Debug, Clone)]
pub struct MonthRecord {
    pub date: MonthDate,
    pub id: u32,
    pub rx: u64,
    pub timestamp: i64,
    pub tx: u64,
}

#[derive(Debug, Clone)]
pub struct MonthDate {
    pub month: u8,
    pub year: i32,
}

#[derive(Debug, Clone)]
pub struct TopRecord {
    pub date: Date,
    pub id: u32,
    pub rx: u64,
    pub timestamp: i64,
    pub tx: u64,
}

#[derive(Debug, Clone)]
pub struct Total {
    pub rx: u64,
    pub tx: u64,
}

#[derive(Debug, Clone)]
pub struct YearRecord {
    pub date: YearDate,
    pub id: u32,
    pub rx: u64,
    pub timestamp: i64,
    pub tx: u64,
}

#[derive(Debug, Clone)]
pub struct YearDate {
    pub year: i32,
}

/// Whether `index` is the place of the first interface called `name`.
pub open spec fn is_first_named(interfaces: Seq<Interface>, name: Seq<char>, index: int) -> bool {
    &&& 0 <= index < interfaces.len()
    &&& interfaces[index].name@ == name
    &&& forall|j: int| 0 <= j < index ==> (#[trigger] interfaces[j]).name@ != name
}

/// Whether some interface is called `name`.
pub open spec fn has_named(interfaces: Seq<Interface>, name: Seq<char>) -> bool {
    exists|i: int| 0 <= i < interfaces.len() && (#[trigger] interfaces[i]).name@ == name
}

/// The names of the interfaces, in the order of the report.
pub open spec fn names_of(interfaces: Seq<Interface>) -> Seq<Seq<char>> {
    Seq::new(interfaces.len(), |i: int| interfaces[i].name@)
}

impl VnstatData {
    /// The first interface of the report that is called `name`.
    pub fn find_interface(&self, name: &str) -> (found: Option<&Interface>)
        ensures
            found is Some <==> has_named(self.interfaces@, name@),
            found matches Some(interface) ==> exists|i: int|
                is_first_named(self.interfaces@, name@, i) && *interface == self.interfaces@[i],
    {
        let wanted = String::from_str(name);
        let mut i: usize = 0;
        while i < self.interfaces.len()
            invariant
                i <= self.interfaces.len(),
                wanted@ == name@,
                forall|j: int| 0 <= j < i ==> (#[trigger] self.interfaces@[j]).name@ != name@,
            decreases self.interfaces.len() - i,
        {
            if self.interfaces[i].name == wanted {
                assert(is_first_named(self.interfaces@, name@, i as int));
                return Some(&self.interfaces[i]);
            }
            i += 1;
        }
        None
    }

    /// The names of all interfaces of the report, in its order.
    pub fn interface_names(&self) -> (names: Vec<String>)
        ensures
            crate::command::texts(names@) == names_of(self.interfaces@),
    {
        let mut names: Vec<String> = Vec::new();
        let mut i: usize = 0;
        while i < self.interfaces.len()
            invariant
                i <= self.interfaces.len(),
                names.len() == i,
                forall|j: int| 0 <= j < i ==> names[j]@ == self.interfaces[j].name@,
            decreases self.interfaces.len() - i,
        {
            names.push(self.interfaces[i].name.clone());
            i += 1;
        }
        assert(crate::command::texts(names@) =~= names_of(self.interfaces@));
        names
    }
}

} // verus!
