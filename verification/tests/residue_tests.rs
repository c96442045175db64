use modarith::Mod;
use num::BigInt;

#[test]
fn residue_construction_reduces() {
    let r = Mod::new(&BigInt::from(17), &BigInt::from(5));
    assert_eq!(r.un_mod(), BigInt::from(2));
    let n = Mod::new(&BigInt::from(-1), &BigInt::from(5));
    assert_eq!(n.un_mod(), BigInt::from(4));
}

#[test]
fn residue_identities() {
    let z = Mod::<BigInt>::zero(&BigInt::from(9));
    assert_eq!(z.un_mod(), BigInt::from(0));
    let o = Mod::<BigInt>::one(&BigInt::from(9));
    assert_eq!(o.un_mod(), BigInt::from(1));
    let trivial = Mod::<BigInt>::one(&BigInt::from(1));
    assert_eq!(trivial.un_mod(), BigInt::from(0));
}

#[test]
fn residue_addition_and_multiplication() {
    let m = BigInt::from(7);
    let a = Mod::new(&BigInt::from(5), &m);
    let b = Mod::new(&BigInt::from(4), &m);
    assert_eq!(a.plus(&b).un_mod(), BigInt::from(2));
    assert_eq!(a.times(&b).un_mod(), BigInt::from(6));
}

#[test]
fn residue_inverse() {
    let m = BigInt::from(7);
    let a = Mod::new(&BigInt::from(3), &m);
    let inv = a.inv().unwrap();
    assert_eq!(inv.un_mod(), BigInt::from(5));
    assert_eq!(a.times(&inv).un_mod(), BigInt::from(1));
    // 2 and 4 share a divisor, so 2 has no inverse modulo 4
    let no = Mod::new(&BigInt::from(2), &BigInt::from(4));
    assert!(no.inv().is_none());
}
