use ferrite::peano::{S, Z};
use ferrite::row::{
    Bottom, Const, ElimConst, ElimSum, IntersectSum, LiftFieldBorrow, LiftSumBorrow, Merge, Prism,
    RowTypeApp, SplitRow, Sum,
};

type Row3 = (u8, (u16, (u32, ())));
type Labels = Sum<i32, Sum<i32, Sum<i32, Bottom>>>;

#[test]
fn prism_injects_at_its_position() {
    let a: Labels = <Z as Prism<Row3, Const<i32>>>::inject_elem(7);
    assert_eq!(a, Sum::Inl(7));
    let b: Labels = <S<S<Z>> as Prism<Row3, Const<i32>>>::inject_elem(9);
    assert_eq!(b, Sum::Inr(Sum::Inr(Sum::Inl(9))));
}

#[test]
fn prism_extracts_only_its_position() {
    let b: Labels = Sum::Inr(Sum::Inl(4));
    assert_eq!(<S<Z> as Prism<Row3, Const<i32>>>::extract_elem(b), Some(4));
    let c: Labels = Sum::Inr(Sum::Inl(4));
    assert_eq!(<Z as Prism<Row3, Const<i32>>>::extract_elem(c), None);
    let d: Labels = Sum::Inl(4);
    assert_eq!(<S<S<Z>> as Prism<Row3, Const<i32>>>::extract_elem(d), None);
}

#[test]
fn prism_round_trip() {
    let e = <S<Z> as Prism<Row3, Const<i32>>>::inject_elem(-3);
    assert_eq!(<S<Z> as Prism<Row3, Const<i32>>>::extract_elem(e), Some(-3));
}

type Pairs = Sum<(u8, bool), Sum<(u8, bool), Sum<(u8, bool), Bottom>>>;

#[test]
fn split_row_keeps_the_alternative() {
    let row: Pairs = Sum::Inr(Sum::Inl((3, true)));
    let (x, y) = <Row3 as SplitRow<Const<u8>, Const<bool>>>::split_row(row);
    assert_eq!(x, Sum::Inr(Sum::Inl(3)));
    assert_eq!(y, Sum::Inr(Sum::Inl(true)));
}

#[test]
fn intersect_matching_alternatives() {
    let x: Sum<u8, Sum<u8, Sum<u8, Bottom>>> = Sum::Inr(Sum::Inr(Sum::Inl(5)));
    let y: Sum<bool, Sum<bool, Sum<bool, Bottom>>> = Sum::Inr(Sum::Inr(Sum::Inl(false)));
    let joined = <Row3 as IntersectSum<Const<u8>, Const<bool>>>::intersect(x, y);
    assert_eq!(joined, Some(Sum::Inr(Sum::Inr(Sum::Inl((5, false))))));
}

#[test]
fn intersect_different_alternatives() {
    let x: Sum<u8, Sum<u8, Sum<u8, Bottom>>> = Sum::Inl(5);
    let y: Sum<bool, Sum<bool, Sum<bool, Bottom>>> = Sum::Inr(Sum::Inl(false));
    let joined = <Row3 as IntersectSum<Const<u8>, Const<bool>>>::intersect(x, y);
    assert_eq!(joined, None);
}

#[test]
fn intersect_after_split_gives_back_the_row() {
    let row: Pairs = Sum::Inr(Sum::Inr(Sum::Inl((200, false))));
    let (x, y) = <Row3 as SplitRow<Const<u8>, Const<bool>>>::split_row(row);
    let joined = <Row3 as IntersectSum<Const<u8>, Const<bool>>>::intersect(x, y);
    assert_eq!(joined, Some(Sum::Inr(Sum::Inr(Sum::Inl((200, false))))));
}

#[test]
fn elim_sum_uses_the_held_field() {
    let row: Sum<String, Sum<String, Bottom>> = Sum::Inr(Sum::Inl("second".to_string()));
    let s = <(u8, (u16, ())) as ElimSum<Const<String>, ElimConst, String>>::elim_sum(ElimConst {}, row);
    assert_eq!(s, "second");
}

struct Double;

impl<A> LiftFieldBorrow<Const<u32>, Const<u64>, A> for Double {
    fn spec_lift_field_borrow(field: u32) -> u64 {
        (field as u64) * 2
    }

    fn lift_field_borrow(field: &u32) -> u64 {
        (*field as u64) * 2
    }
}

#[test]
fn lift_sum_borrow_maps_the_held_field() {
    let row: Sum<u32, Sum<u32, Bottom>> = Sum::Inr(Sum::Inl(21));
    let lifted = <(u8, (u16, ())) as LiftSumBorrow<Const<u32>, Const<u64>, Double>>::lift_sum_borrow(&row);
    assert_eq!(lifted, Sum::Inr(Sum::Inl(42u64)));
}

#[test]
fn merge_applies_both() {
    let pair: <Merge<Const<u8>, Const<bool>> as RowTypeApp<()>>::Applied = (1u8, true);
    assert_eq!(pair, (1, true));
}

use ferrite::row::{FieldLifter, FieldLifterApplied, LiftSum2, LiftSum3};

/// Lifts a number into the text of the root value that its injection builds.
#[derive(Clone, Copy)]
struct ShowInjected;

type Nums = Sum<u32, Sum<u32, Bottom>>;

impl FieldLifterApplied<Nums> for ShowInjected {
    type Source = Const<u32>;
    type Target = Const<u32>;
    type Injected = Const<String>;
}

impl<A> FieldLifter<Nums, A> for ShowInjected {
    fn lift_field<I>(self, inject: I, field: u32) -> String
    where
        I: Fn(u32) -> Nums + Send + 'static,
    {
        format!("{:?}", inject(field + 1))
    }
}

#[test]
fn lift_sum3_injects_at_the_same_position() {
    let row: Nums = Sum::Inr(Sum::Inl(5));
    let lifted = <(u8, (u16, ())) as LiftSum3<ShowInjected, Const<u32>>>::lift_sum3(ShowInjected, row);
    assert_eq!(lifted, Sum::Inr(Sum::Inl("Inr(Inl(6))".to_string())));
}

#[test]
fn lift_sum_wraps_the_injection() {
    let row: Nums = Sum::Inl(1);
    let lifted = <(u8, (u16, ())) as LiftSum2<ShowInjected, Nums>>::lift_sum(ShowInjected, |x: Nums| x, row);
    assert_eq!(lifted, Sum::Inl("Inl(2)".to_string()));
}

#[test]
fn intersect_is_symmetric_up_to_swapping_pairs() {
    let x: Sum<u8, Sum<u8, Sum<u8, Bottom>>> = Sum::Inr(Sum::Inl(5));
    let y: Sum<bool, Sum<bool, Sum<bool, Bottom>>> = Sum::Inr(Sum::Inl(true));
    let xy = <Row3 as IntersectSum<Const<u8>, Const<bool>>>::intersect(x, y);
    let x2: Sum<u8, Sum<u8, Sum<u8, Bottom>>> = Sum::Inr(Sum::Inl(5));
    let y2: Sum<bool, Sum<bool, Sum<bool, Bottom>>> = Sum::Inr(Sum::Inl(true));
    let yx = <Row3 as IntersectSum<Const<bool>, Const<u8>>>::intersect(y2, x2);
    assert_eq!(xy, Some(Sum::Inr(Sum::Inl((5, true)))));
    assert_eq!(yx, Some(Sum::Inr(Sum::Inl((true, 5)))));
}
