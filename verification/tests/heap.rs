use exercises::heap::Ticket;
use std::mem::size_of;

#[test]
fn string_size() {
    assert_eq!(size_of::<String>(), 24);
}

#[test]
fn ticket_size() {
    assert_eq!(size_of::<Ticket>(), 24 * 3);
}

#[test]
fn checking_string_ref_size_and_value() {
    let mut s = String::with_capacity(5);

    println!("=== BEFORE PUSH ===");
    println!("address of s (String struct): {:p}", &s);
    println!("s.as_ptr() (heap buffer):     {:p}", s.as_ptr());
    println!("len: {}, cap: {}", s.len(), s.capacity());

    s.push_str("Hey");

    println!("\n=== AFTER PUSH ===");
    println!("address of s (String struct): {:p}", &s);
    println!("s.as_ptr() (heap buffer):     {:p}", s.as_ptr());
    println!("len: {}, cap: {}", s.len(), s.capacity());

    let r: &String = &s;

    println!("\n=== REFERENCE ===");
    println!("r value (address it stores):  {:p}", r);
    println!("address of r variable:        {:p}", &r);
    println!("r.as_ptr() (heap buffer):     {:p}", r.as_ptr());

    println!("\n=== CHECKS ===");

    // r stores the address of s
    assert!(std::ptr::eq(r, &s));

    // both see the same heap buffer
    assert_eq!(r.as_ptr(), s.as_ptr());
}
