use opcount::count_operations;
use opcount::count_operations_values;
use opcount::sort_ascending;
use opcount::InstrumentedBase;
use opcount::OpKind;
use opcount::Session;

#[test]
fn it_sort1() {
    let mut vec = Vec::new();
    (0..4).for_each(|k| vec.push(k));
    let one = count_operations(vec, |mut x: Session<i32>| {
        sort_ascending(&mut x);
        x
    });
    let mut def: InstrumentedBase = Default::default();
    def.set([4, 0, 0, 0, 3, 0]);
    assert_eq!(def, one);
}

#[test]
fn it_sort2() {
    let mut vec = Vec::new();
    (0..4).for_each(|k| vec.push(3 - k));
    let one = count_operations(vec, |mut x: Session<i32>| {
        sort_ascending(&mut x);
        x
    });
    let mut def: InstrumentedBase = Default::default();
    def.set([4, 0, 0, 0, 6, 0]);
    assert_eq!(def, one);
}

#[test]
fn print() {
    let n = count_operations::<u64, _>(vec![], |x| x);
    assert_eq!(
        "[(\"new\", 0), (\"clone\", 0), (\"drop\", 0), (\"eq\", 0), (\"partial_cmp\", 0), (\"cmp\", 0)]",
        n.debug_string()
    );
}

// A batch of distinct values under an operation that does no counted work:
// construct equals the batch length and every other slot is zero.
#[test]
fn identity_operation_counts() {
    let batch: Vec<u64> = vec![10, 20, 30, 40, 50];
    let counts = count_operations(batch, |x| x);
    assert_eq!(counts.get(), [5, 0, 0, 0, 0, 0]);
}

// Every duplication call raises the duplicate slot by exactly one, however
// the duplicates are discarded afterwards.
#[test]
fn duplicates_counted_independent_of_discard() {
    let mut s = Session::new(vec![7u64, 8u64]);
    s.dup_at(0);
    s.dup_at(1);
    s.dup_at(0);
    assert_eq!(s.snapshot().get(), [2, 3, 0, 0, 0, 0]);
    // discard two of the duplicates: the duplicate tally keeps its value
    s.destroy_at(4);
    s.destroy_at(3);
    assert_eq!(s.snapshot().get(), [2, 3, 2, 0, 0, 0]);
}

// Equality and total-order tests are tallied once per probe, and the results
// are exactly the inner values' own results.
#[test]
fn comparison_counts_and_results() {
    let mut s = Session::new(vec![1u64, 1u64, 2u64]);
    assert!(s.eq_at(0, 1));
    assert!(!s.eq_at(0, 2));
    assert_eq!(s.cmp_at(0, 2), std::cmp::Ordering::Less);
    assert_eq!(s.cmp_at(2, 0), std::cmp::Ordering::Greater);
    assert_eq!(s.partial_cmp_at(1, 1), Some(std::cmp::Ordering::Equal));
    assert_eq!(s.snapshot().get(), [3, 0, 0, 2, 1, 2]);
}

// Closed-system conservation: once the session tears every wrapper down,
// the destroy tally equals constructs plus duplicates.
#[test]
fn conservation_at_session_end() {
    let mut s = Session::new(vec![4u64, 2, 9]);
    s.dup_at(2);
    s.dup_at(0);
    s.destroy_at(1);
    let (values, counts) = s.into_values();
    assert_eq!(values, vec![4, 9, 9, 4]);
    assert_eq!(counts.get(), [3, 2, 5, 0, 0, 0]);
    assert_eq!(counts.get()[2], counts.get()[0] + counts.get()[1]);
}

// Wrapping then unwrapping is value-transparent: with no counted work in
// between, the extracted values are the input batch in the input order.
#[test]
fn round_trip_identity() {
    let batch: Vec<i32> = vec![5, -3, 5, 0];
    let (values, counts) = count_operations_values(batch, |x| x);
    assert_eq!(values, vec![5, -3, 5, 0]);
    assert_eq!(counts.get(), [4, 0, 0, 0, 0, 0]);
}

// Instrumented sorting yields the same values, in the same order, as an
// uninstrumented run of the same algorithm on the raw batch.
#[test]
fn round_trip_sorted() {
    let batch: Vec<u64> = vec![3, 1, 2, 0];
    let mut raw = batch.clone();
    raw.sort();
    let (values, counts) = count_operations_values(batch, |mut x: Session<u64>| {
        sort_ascending(&mut x);
        x
    });
    assert_eq!(values, raw);
    assert_eq!(counts.get()[0], 4);
    assert_eq!(counts.get()[1], 0);
    assert_eq!(counts.get()[2], 0);
}

// Empty batch, no counted work: every slot stays zero.
#[test]
fn empty_batch_all_zero() {
    let counts = count_operations::<u64, _>(Vec::new(), |x| x);
    assert_eq!(counts.get(), [0, 0, 0, 0, 0, 0]);
    assert_eq!(counts, InstrumentedBase::default());
}

#[test]
fn names_in_slot_order() {
    assert_eq!(
        InstrumentedBase::counts_names(),
        ["new", "clone", "drop", "eq", "partial_cmp", "cmp"]
    );
}

#[test]
fn set_get_round_trip() {
    let mut c = InstrumentedBase::default();
    c.set([1, 2, 3, 4, 5, 6]);
    assert_eq!(c.get(), [1, 2, 3, 4, 5, 6]);
}

#[test]
fn record_raises_one_slot() {
    let mut c = InstrumentedBase::default();
    c.record(OpKind::Construct);
    c.record(OpKind::PartialOrderTest);
    c.record(OpKind::PartialOrderTest);
    assert_eq!(c.get(), [1, 0, 0, 0, 2, 0]);
}

#[test]
fn debug_string_multi_digit() {
    let mut c = InstrumentedBase::default();
    c.set([12, 0, 340, 7, 0, 1005]);
    assert_eq!(
        "[(\"new\", 12), (\"clone\", 0), (\"drop\", 340), (\"eq\", 7), (\"partial_cmp\", 0), (\"cmp\", 1005)]",
        c.debug_string()
    );
}

// Construction is counted once per wrapper and only on construction;
// inspection records nothing.
#[test]
fn wrapper_events() {
    let mut base = InstrumentedBase::default();
    let a = opcount::Instrumented::new(41u64, &mut base);
    assert_eq!(*a.inspect(), 41);
    let b = a.duplicate(&mut base);
    assert_eq!(base.get(), [1, 1, 0, 0, 0, 0]);
    assert!(a.eq_with(&b, &mut base));
    let va = a.destroy(&mut base);
    let vb = b.destroy(&mut base);
    assert_eq!((va, vb), (41, 41));
    assert_eq!(base.get(), [1, 1, 2, 1, 0, 0]);
}

// A partial-order test answers "incomparable" exactly when the inner values
// are incomparable, and is tallied all the same.
#[test]
fn incomparable_values() {
    let mut s = Session::new(vec![1.0f64, f64::NAN]);
    assert_eq!(s.partial_cmp_at(0, 1), None);
    assert_eq!(
        s.partial_cmp_at(0, 0),
        Some(std::cmp::Ordering::Equal)
    );
    assert_eq!(s.snapshot().get(), [2, 0, 0, 0, 2, 0]);
}

// Sorting a batch that is already sorted probes each neighbouring pair
// exactly once: length minus one partial-order tests.
#[test]
fn sorted_input_probe_count() {
    let batch: Vec<u64> = vec![1, 2, 3, 4, 5, 6, 7];
    let counts = count_operations(batch, |mut x: Session<u64>| {
        sort_ascending(&mut x);
        x
    });
    assert_eq!(counts.get(), [7, 0, 0, 0, 6, 0]);
}
