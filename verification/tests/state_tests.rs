use moe_logger::SharedWriteState;

#[test]
fn fresh_state_is_zeroed() {
    let st = SharedWriteState::new();
    assert_eq!(st.current_offset(), 0);
    assert_eq!(st.line_count, 0);
    assert_eq!(st.rotation_index, 0);
}

#[test]
fn offset_is_sum_of_reported_writes() {
    let mut st = SharedWriteState::new();
    let writes: [u64; 5] = [5, 7, 0, 11, 3];
    let mut total: u64 = 0;
    for w in writes {
        assert_eq!(st.current_offset(), total);
        st.advance_offset(w);
        total += w;
    }
    assert_eq!(st.current_offset(), 26);
}

#[test]
fn partial_write_advances_only_reported_amount() {
    let mut st = SharedWriteState::new();
    // a 10-byte buffer of which only 4 bytes were reported written
    st.advance_offset(4);
    assert_eq!(st.current_offset(), 4);
}

#[test]
fn increment_line_returns_fresh_count() {
    let mut st = SharedWriteState::new();
    assert_eq!(st.increment_line(), 1);
    assert_eq!(st.increment_line(), 2);
    assert_eq!(st.increment_line(), 3);
    assert_eq!(st.line_count, 3);
}

#[test]
fn next_rotation_index_returns_prior_value() {
    let mut st = SharedWriteState::new();
    assert_eq!(st.next_rotation_index(), 0);
    assert_eq!(st.next_rotation_index(), 1);
    assert_eq!(st.rotation_index, 2);
}

#[test]
fn reset_after_rotation_zeroes_counters_keeps_index() {
    let mut st = SharedWriteState::new();
    st.advance_offset(100);
    st.increment_line();
    st.increment_line();
    st.next_rotation_index();
    st.reset_after_rotation();
    assert_eq!(st.current_offset(), 0);
    assert_eq!(st.line_count, 0);
    assert_eq!(st.rotation_index, 1);
}
