use ferrite::fix::{fix, unfix, Fix, TypeApp, Unfix};
use ferrite::peano::{succ, Nat, S, Z};

struct ListF;

impl<A> TypeApp<Unfix<A>> for ListF {
    type Applied = Option<(u8, A)>;
}

fn to_vec(list: Fix<ListF>) -> Vec<u8> {
    let mut out = Vec::new();
    let mut cur = list;
    loop {
        match unfix(cur) {
            None => return out,
            Some((x, rest)) => {
                out.push(x);
                cur = rest;
            }
        }
    }
}

#[test]
fn unfix_gives_back_the_layer() {
    let nil = fix::<ListF>(None);
    let one = fix::<ListF>(Some((1, nil)));
    let two = fix::<ListF>(Some((2, one)));
    assert_eq!(to_vec(two), vec![2, 1]);
}

#[test]
fn unfix_of_empty_layer() {
    let nil = fix::<ListF>(None);
    assert!(unfix(nil).is_none());
}

#[test]
fn type_level_numbers_unfix_to_their_predecessor() {
    let zero: <S<Z> as TypeApp<Unfix<u8>>>::Applied = Z;
    let three: <Z as TypeApp<Unfix<u32>>>::Applied = 3u32;
    assert!(matches!(zero, Z));
    assert_eq!(three, 3);
}

#[test]
fn succ_wraps_its_argument() {
    let s = succ(5u8);
    assert_eq!(s.0, 5);
    let w: S<S<Z>> = Nat::witness();
    assert!(matches!(w, S(S(Z))));
}
