use pmda::atom::{Atom, AtomValue};
use pmda::codec::{pack, pm_id, unpack, Id};
use pmda::fetch::{
    new_carrier, resolve, respond, FetchError, FetchResponse, NO_INSTANCE, STATUS_INVALID_INSTANCE,
    STATUS_NO_VALUE, STATUS_UNKNOWN_METRIC,
};
use pmda::model::{Desc, Metric, Semantics, Units, ValueType};
use pmda::table::{ConfigError, DispatchTable};

fn singleton_u64(cluster: u32, item: u32) -> Metric {
    Metric::new(Desc::new(
        pm_id(cluster, item),
        ValueType::UInt64,
        None,
        Semantics::Instant,
        Units::default(),
    ))
}

fn one_fetch<F: Fn(&Metric, u32, &mut AtomValue) -> i32>(
    table: &DispatchTable,
    pmid: u32,
    inst: u32,
    cb: F,
) -> FetchResponse {
    match resolve(table, pmid, inst) {
        Err(e) => FetchResponse::Error(e.code()),
        Ok(m) => {
            let mut carrier = new_carrier(&m);
            let status = cb(&m, inst, &mut carrier);
            respond(status, &carrier)
        }
    }
}

#[test]
fn pack_unpack_round_trip() {
    let samples = [
        (0u32, 0u32, 0u32),
        (511, 4095, 1023),
        (3, 7, 9),
        (510, 0, 1),
        (1, 4095, 0),
    ];
    for &(d, c, i) in samples.iter() {
        assert_eq!(unpack(pack(d, c, i)), (d, c, i));
    }
}

#[test]
fn unpack_pack_round_trip() {
    for &id in [0u32, 1, 0x003f_fc00, 0x7fff_ffff, 0x1234_5678].iter() {
        let (d, c, i) = unpack(id);
        assert_eq!(pack(d, c, i), id);
    }
}

#[test]
fn id_accessors_match_fields() {
    let id = Id::new(pack(5, 6, 7));
    assert_eq!(id.domain(), 5);
    assert_eq!(id.cluster(), 6);
    assert_eq!(id.item(), 7);
    assert_eq!(pm_id(2, 1), pack(0, 2, 1));
}

#[test]
fn table_rejects_duplicate_keys() {
    // Same (cluster, item) under different value types must still collide.
    let a = Metric::new(Desc::new(
        pm_id(0, 0),
        ValueType::UInt64,
        None,
        Semantics::Instant,
        Units::default(),
    ));
    let b = Metric::new(Desc::new(
        pm_id(0, 0),
        ValueType::Int32,
        Some(1),
        Semantics::Counter,
        Units::default(),
    ));
    match DispatchTable::new(vec![a, b]) {
        Err(ConfigError::DuplicateMetric) => {}
        _ => panic!("duplicate coordinates must fail table construction"),
    }
}

#[test]
fn table_accepts_distinct_keys() {
    let a = singleton_u64(0, 0);
    let b = singleton_u64(0, 1);
    let c = singleton_u64(1, 0);
    let t = DispatchTable::new(vec![a, b, c]).unwrap();
    assert_eq!(t.len(), 3);
    // Insertion order is preserved for diagnostic listing.
    assert_eq!(t.all()[0], a);
    assert_eq!(t.all()[1], b);
    assert_eq!(t.all()[2], c);
    assert_eq!(t.lookup(0, 1), Some(b));
    assert_eq!(t.lookup(1, 0), Some(c));
    assert_eq!(t.lookup(2, 0), None);
}

#[test]
fn empty_table_knows_nothing() {
    let t = DispatchTable::new(Vec::new()).unwrap();
    assert_eq!(t.len(), 0);
    assert_eq!(t.lookup(0, 0), None);
    match resolve(&t, pm_id(0, 0), NO_INSTANCE) {
        Err(FetchError::UnknownMetric) => {}
        _ => panic!("an empty table must resolve nothing"),
    }
}

#[test]
fn fetch_correctness() {
    let t = DispatchTable::new(vec![singleton_u64(0, 0)]).unwrap();
    let cb = |_m: &Metric, _inst: u32, c: &mut AtomValue| -> i32 {
        c.set_u64(42);
        0
    };
    let r = one_fetch(&t, pm_id(0, 0), NO_INSTANCE, cb);
    assert_eq!(r, FetchResponse::Value(Atom::U64(42)));
    let r = one_fetch(&t, pm_id(0, 1), NO_INSTANCE, cb);
    assert_eq!(r, FetchResponse::Error(STATUS_UNKNOWN_METRIC));
}

#[test]
fn singleton_rejects_instance() {
    let t = DispatchTable::new(vec![singleton_u64(0, 0)]).unwrap();
    let mut invoked = 0u32;
    let r = match resolve(&t, pm_id(0, 0), 7) {
        Err(e) => FetchResponse::Error(e.code()),
        Ok(m) => {
            invoked += 1;
            let mut carrier = new_carrier(&m);
            carrier.set_u64(1);
            respond(0, &carrier)
        }
    };
    assert_eq!(r, FetchResponse::Error(STATUS_INVALID_INSTANCE));
    assert_eq!(invoked, 0, "the callback must never run for an invalid instance");
}

#[test]
fn bound_metric_rejects_sentinel() {
    let m = Metric::new(Desc::new(
        pm_id(2, 3),
        ValueType::UInt32,
        Some(1),
        Semantics::Instant,
        Units::default(),
    ));
    let t = DispatchTable::new(vec![m]).unwrap();
    match resolve(&t, pm_id(2, 3), NO_INSTANCE) {
        Err(FetchError::InvalidInstance) => {}
        _ => panic!("an instance-bound metric must reject the sentinel"),
    }
    assert_eq!(resolve(&t, pm_id(2, 3), 4), Ok(m));
}

#[test]
fn fetch_idempotent() {
    let t = DispatchTable::new(vec![singleton_u64(0, 0)]).unwrap();
    let cb = |_m: &Metric, _inst: u32, c: &mut AtomValue| -> i32 {
        c.set_u64(1234);
        0
    };
    let r1 = one_fetch(&t, pm_id(0, 0), NO_INSTANCE, &cb);
    let r2 = one_fetch(&t, pm_id(0, 0), NO_INSTANCE, &cb);
    assert_eq!(r1, r2);
    assert_eq!(r1, FetchResponse::Value(Atom::U64(1234)));
}

#[test]
fn callback_status_passes_through_verbatim() {
    let t = DispatchTable::new(vec![singleton_u64(0, 0)]).unwrap();
    let cb = |_m: &Metric, _inst: u32, _c: &mut AtomValue| -> i32 { -7 };
    let r = one_fetch(&t, pm_id(0, 0), NO_INSTANCE, cb);
    assert_eq!(r, FetchResponse::Error(-7));
}

#[test]
fn success_without_value_is_reported() {
    let carrier = AtomValue::new(ValueType::UInt64);
    assert_eq!(respond(0, &carrier), FetchResponse::Error(STATUS_NO_VALUE));
}

#[test]
fn error_code_vocabulary() {
    assert_eq!(FetchError::UnknownMetric.code(), -12358);
    assert_eq!(FetchError::InvalidInstance.code(), -12360);
    assert_eq!(STATUS_NO_VALUE, -12351);
}

#[test]
fn atom_setters_write_once() {
    let mut c = AtomValue::new(ValueType::Int32);
    c.set_i32(-5);
    assert_eq!(c.value(), Some(Atom::I32(-5)));

    let mut c = AtomValue::new(ValueType::Int64);
    c.set_i64(-6_000_000_000);
    assert_eq!(c.value(), Some(Atom::I64(-6_000_000_000)));

    let mut c = AtomValue::new(ValueType::UInt32);
    c.set_u32(9);
    assert_eq!(c.value(), Some(Atom::U32(9)));

    let mut c = AtomValue::new(ValueType::Float64);
    c.set_f64_bits(2.5f64.to_bits());
    assert_eq!(c.value(), Some(Atom::F64Bits(2.5f64.to_bits())));

    let mut c = AtomValue::new(ValueType::Float32);
    c.set_f32_bits(1.5f32.to_bits());
    assert_eq!(c.value(), Some(Atom::F32Bits(1.5f32.to_bits())));
}

#[test]
fn units_default_is_dimensionless() {
    let u = Units::default();
    assert_eq!(u, Units::new(0, 0, 0, 0, 0, 0));
}
