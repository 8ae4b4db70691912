use debug_utils::filter::MessageFilter;
use debug_utils::flags::MessageSeverity;
use debug_utils::flags::MessageType;

#[test]
fn severity_union_commutative() {
    let a = MessageSeverity::warning().union(MessageSeverity::error());
    let b = MessageSeverity::info();
    assert_eq!(a.union(b), b.union(a));
}

#[test]
fn type_union_commutative() {
    let a = MessageType::general().union(MessageType::performance());
    let b = MessageType::validation();
    assert_eq!(a.union(b), b.union(a));
}

#[test]
fn severity_intersect_absorption() {
    let a = MessageSeverity::warning().union(MessageSeverity::error());
    let b = MessageSeverity::error().union(MessageSeverity::info());
    assert_eq!(a.intersect(a.intersect(b)), a.intersect(b));
}

#[test]
fn type_intersect_absorption() {
    let a = MessageType::general().union(MessageType::validation());
    let b = MessageType::validation().union(MessageType::performance());
    assert_eq!(a.intersect(a.intersect(b)), a.intersect(b));
}

#[test]
fn severity_intersect_idempotent() {
    let a = MessageSeverity::warning().union(MessageSeverity::verbose());
    assert_eq!(a.intersect(a), a);
}

#[test]
fn severity_xor_is_bits_in_exactly_one() {
    let a = MessageSeverity::warning().union(MessageSeverity::error());
    let b = MessageSeverity::error().union(MessageSeverity::info());
    let expected = MessageSeverity::warning().union(MessageSeverity::info());
    assert_eq!(a.symmetric_difference(b), expected);
}

#[test]
fn type_xor_is_bits_in_exactly_one() {
    let a = MessageType::general().union(MessageType::validation());
    let b = MessageType::validation().union(MessageType::performance());
    let expected = MessageType::general().union(MessageType::performance());
    assert_eq!(a.symmetric_difference(b), expected);
}

#[test]
fn severity_in_place_forms_match_two_operand_forms() {
    let a = MessageSeverity::warning().union(MessageSeverity::error());
    let b = MessageSeverity::error().union(MessageSeverity::info());

    let mut u = a;
    u.union_assign(b);
    assert_eq!(u, a.union(b));

    let mut i = a;
    i.intersect_assign(b);
    assert_eq!(i, a.intersect(b));
    assert_eq!(i, MessageSeverity::error());

    let mut x = a;
    x.symmetric_difference_assign(b);
    assert_eq!(x, a.symmetric_difference(b));
}

#[test]
fn type_in_place_intersection_uses_right_hand_operand() {
    let a = MessageType::general().union(MessageType::validation());
    let b = MessageType::validation().union(MessageType::performance());
    let mut i = a;
    i.intersect_assign(b);
    assert_eq!(i, a.intersect(b));
    assert_eq!(i, MessageType::validation());
    assert_ne!(i, a);
}

#[test]
fn type_in_place_union_and_xor_match_two_operand_forms() {
    let a = MessageType::general();
    let b = MessageType::performance();

    let mut u = a;
    u.union_assign(b);
    assert_eq!(u, a.union(b));

    let mut x = a.union(b);
    x.symmetric_difference_assign(b);
    assert_eq!(x, a);
}

#[test]
fn severity_none_is_union_identity_and_intersect_absorbing() {
    let a = MessageSeverity::verbose().union(MessageSeverity::error());
    assert_eq!(a.union(MessageSeverity::none()), a);
    assert_eq!(a.intersect(MessageSeverity::none()), MessageSeverity::none());
}

#[test]
fn severity_all_is_union_absorbing_and_intersect_identity() {
    let a = MessageSeverity::verbose().union(MessageSeverity::error());
    assert_eq!(a.union(MessageSeverity::all()), MessageSeverity::all());
    assert_eq!(a.intersect(MessageSeverity::all()), a);
}

#[test]
fn all_is_the_union_of_every_named_bit() {
    let severities = MessageSeverity::verbose()
        .union(MessageSeverity::info())
        .union(MessageSeverity::warning())
        .union(MessageSeverity::error());
    assert_eq!(severities, MessageSeverity::all());

    let types = MessageType::general()
        .union(MessageType::validation())
        .union(MessageType::performance());
    assert_eq!(types, MessageType::all());
}

#[test]
fn none_has_no_bits() {
    assert_eq!(MessageSeverity::none().bits(), 0);
    assert_eq!(MessageType::none().bits(), 0);
}

#[test]
fn bits_round_trip() {
    let s = MessageSeverity::from_bits(0x1101);
    assert_eq!(s.bits(), 0x1101);
    let t = MessageType::from_bits(0x5);
    assert_eq!(t.bits(), 0x5);
}

#[test]
fn errors_and_warnings_preset_is_exact() {
    let f = MessageFilter::errors_and_warnings();
    assert_eq!(f.severity, MessageSeverity::warning().union(MessageSeverity::error()));
    assert_eq!(f.types, MessageType::validation().union(MessageType::general()));
    assert_ne!(f.severity, MessageSeverity::all());
    assert_ne!(f.types, MessageType::all());
}

#[test]
fn all_and_none_presets() {
    let a = MessageFilter::all();
    assert_eq!(a.severity, MessageSeverity::all());
    assert_eq!(a.types, MessageType::all());
    let n = MessageFilter::none();
    assert_eq!(n.severity, MessageSeverity::none());
    assert_eq!(n.types, MessageType::none());
}
