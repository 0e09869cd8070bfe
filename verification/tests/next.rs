use http_conn::next::{Next, Reg};

#[test]
fn read_registers_for_reading() {
    assert_eq!(Next::read().interest(), Reg::Read);
}

#[test]
fn write_registers_for_writing() {
    assert_eq!(Next::write().interest(), Reg::Write);
}

#[test]
fn read_and_write_registers_for_both() {
    assert_eq!(Next::read_and_write().interest(), Reg::ReadWrite);
}

#[test]
fn wait_registers_for_nothing() {
    assert_eq!(Next::wait().interest(), Reg::Wait);
}

#[test]
fn end_leaves_the_event_loop() {
    assert_eq!(Next::end().interest(), Reg::Remove);
}

#[test]
fn a_clone_asks_for_the_same() {
    let next = Next::read_and_write();
    assert_eq!(next.clone().interest(), next.interest());
}
