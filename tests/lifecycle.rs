use abstract_process::lifecycle::{AbstractProcess, InitOutcome, Item, Unit};
use abstract_process::process::ProcessRef;
use abstract_process::tag::Tag;

struct Counter(u32);

impl AbstractProcess for Counter {
    type Arg = u32;
    type Error = ();
    type Message = ();
    type Request = ();
    type Response = u32;

    fn init(_this: ProcessRef, start: u32) -> Result<Counter, ()> {
        Ok(Counter(start))
    }

    fn terminate(self) {}

    fn handle_link_trapped(&self, _tag: Tag) {}

    fn handle_message(&mut self, _message: ()) {
        self.0 += 1;
    }

    fn handle_request(&mut self, _request: ()) -> u32 {
        self.0
    }
}

#[test]
fn counter_counts_three_increments() {
    let this = ProcessRef { node_id: 0, process_id: 2 };
    let state = Counter::init(this, 0).unwrap();
    let (unit, reply) = Unit::entry(InitOutcome::<Counter, ()>::Ready(state));
    assert_eq!(reply, Ok(()));
    let mut unit = unit.unwrap();
    for _ in 0..3 {
        assert_eq!(unit.dispatch(Item::Message(())), None);
    }
    assert_eq!(unit.dispatch(Item::Request(())), Some(3));
    assert_eq!(unit.dispatch(Item::LinkTrapped(Tag { id: 5 })), None);
    unit.stop();
}
