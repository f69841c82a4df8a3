use stacked::{SVec, SVec16, SVec4, SVec8192};

use kerr::KErr;

use std::mem::size_of;
use std::time::Instant;

#[test]
fn svec1() {
    let mut vec = SVec4::<i32>::new();
    let ai = vec.push(0).unwrap();
    let bi = vec.push(1).unwrap();
    println!("{} {}", vec.get(ai), vec.get(bi));
    vec.push(2).unwrap();
    vec.push(3).unwrap();

    assert_eq!(vec.push(4), Err(KErr::new("overflow")));
}

#[derive(PartialEq, Debug)]
struct Dropper(i32);

impl Drop for Dropper {
    fn drop(&mut self) {
        println!("in Dropper.drop: {}", self.0);
    }
}

impl Default for Dropper {
    fn default() -> Self {
        Self(0)
    }
}

#[test]
fn svec2() {
    println!("I expect to see: START 3 2 1 END");
    let mut vec = SVec4::<Dropper>::new();
    assert_eq!(vec.len(), 0);
    vec.push(Dropper(1)).unwrap();
    vec.push(Dropper(2)).unwrap();
    vec.push(Dropper(3)).unwrap();
}

#[test]
fn svec3() {
    println!("I expect to see: 1 -1 START 4 3 2 -11 END");
    let mut vec = SVec4::<Dropper>::new();
    assert_eq!(vec.len(), 0);

    let i0 = vec.push(Dropper(1)).unwrap();
    assert_eq!(i0, 0);
    assert_eq!(vec.get(i0).0, 1);

    vec.push(Dropper(2)).unwrap();

    vec.set(0, Dropper(-1));
    assert_eq!(vec.get(i0).0, -1);

    vec.set(0, Dropper(-11));
    assert_eq!(vec.get(i0).0, -11);

    vec.push(Dropper(3)).unwrap();
    vec.push(Dropper(4)).unwrap();
    println!("START");
}

#[test]
fn optionlayout() {
    println!(
        "i32 size: {},  Option<i32> size: {}",
        size_of::<i32>(),
        size_of::<Option<i32>>()
    );
}

#[test]
fn mutation() {
    let mut vec = SVec4::<i32>::new();
    assert_eq!(vec.to_string(), "[]");
    vec.push(1).unwrap();
    vec.push(2).unwrap();
    vec.push(3).unwrap();
    assert_eq!(vec.to_string(), "[ 1, 2, 3 ]");

    assert_eq!(vec.pop(), 3);
    assert_eq!(vec.to_string(), "[ 1, 2 ]");
    vec.push(4).unwrap();
    assert_eq!(vec.to_string(), "[ 1, 2, 4 ]");

    *vec.get_mut(0) = 5;
    assert_eq!(vec.to_string(), "[ 5, 2, 4 ]");

    vec.insert(1, 6);
    assert_eq!(vec.to_string(), "[ 5, 6, 2, 4 ]");

    vec.remove(1);
    assert_eq!(vec.to_string(), "[ 5, 2, 4 ]");

    let x = vec.get(1);
    assert_eq!(x, &2);

    vec.push(7).unwrap();

    *vec.get_mut(2) = 8;
    vec.remove(2);
    vec.pop();
    vec.pop();
    assert_eq!(vec.to_string(), "[ 5 ]");

    let mut sum = 0i32;
    let iter = vec.iter();
    for x in iter {
        sum += x;
    }
    assert_eq!(sum, 5);
    vec.push(8).unwrap();

    let mut sum = 0i32;
    let iter = (&vec).iter().into_iter();
    for x in iter {
        sum += x;
    }
    assert_eq!(sum, 13);
    vec.push(9).unwrap();

    let mut sum = 0i32;
    for x in vec.iter() {
        sum += x;
    }
    assert_eq!(sum, 22);

    vec.push(10).unwrap();
    vec.pop();

    let iter = vec.iter_mut();
    for x in iter {
        *x += 10;
    }
    assert_eq!(vec.to_string(), "[ 15, 18, 19 ]");

    let iter = (&mut vec).iter_mut().into_iter();
    for x in iter {
        *x += 10;
    }
    assert_eq!(vec.to_string(), "[ 25, 28, 29 ]");

    for x in vec.iter_mut() {
        *x += 10;
    }
    assert_eq!(vec.to_string(), "[ 35, 38, 39 ]");

    vec.push(11).unwrap();
    vec.pop();
    assert_eq!(vec.to_string(), "[ 35, 38, 39 ]");
    assert_eq!(vec.debug_string(), "SVec4[ 35, 38, 39 ]");
}

#[test]
fn as_string() {
    let mut vec = SVec16::<u8>::new();
    vec.push(b'H').unwrap();
    vec.push(b'e').unwrap();
    vec.push(b'l').unwrap();
    vec.push(b'l').unwrap();
    vec.push(b'o').unwrap();
    assert_eq!(vec.as_string().unwrap(), "Hello");

    let mut vec = SVec16::<i32>::new();
    vec.push(0).unwrap();
}

#[test]
fn partialeq() {
    let mut a = SVec4::<u8>::new();
    let mut b = SVec16::<u8>::new();

    assert_eq!(a.eq(&b), true);
    assert_eq!(b.eq(&a), true);

    a.push(0).unwrap();

    assert_eq!(a.eq(&b), false);
    assert_eq!(b.eq(&a), false);

    b.push(0).unwrap();

    assert_eq!(a.eq(&b), true);
    assert_eq!(b.eq(&a), true);
}

fn output_an_intoiter() {
    let mut s = SVec4::<Dropper>::new();
    s.push(Dropper(50)).unwrap();
    s.push(Dropper(51)).unwrap();

    let mut t = s;
    assert_eq!(t.len(), 2);

    t = SVec4::<Dropper>::new();
    t.push(Dropper(60)).unwrap();
    t.push(Dropper(61)).unwrap();

    let intoiter1 = t.iter_owned();
    let _ = &intoiter1;
}

#[test]
fn fromiter() {
    {
        let v = vec![Dropper(10), Dropper(11)];
        for x in v {
            println!("in v loop: {}", x.0);
        }
        println!("done with v loop");
    }

    {
        let a = [Dropper(20), Dropper(21)];
        for x in a.iter() {
            println!("in a loop: {}", x.0);
        }
        println!("{}", a.len());
        println!("done with a loop");
    }

    {
        let mut s = SVec4::<Dropper>::new();
        s.push(Dropper(30)).unwrap();
        s.push(Dropper(31)).unwrap();
        let mut owned = s.iter_owned();
        while let Some(x) = owned.next() {
            println!("in s loop: {}", x.0);
        }
        println!("done with s loop");
    }

    {
        let mut s = SVec4::<Dropper>::new();
        s.push(Dropper(40)).unwrap();
        s.push(Dropper(41)).unwrap();
        let mut owned = s.iter_owned();
        while let Some(x) = owned.next() {
            println!("in s2 loop: {}", x.0);
            break;
        }
        println!("done with s2 loop");
    }

    {
        println!("Testing unsound intoiter lifetime:");
        let _intoiter2 = output_an_intoiter();
        println!("after drop of svec -- only intoiter remains...");
    }
}

#[test]
fn reverse() {
    let mut s = SVec4::<Dropper>::new();
    s.push(Dropper(1)).unwrap();
    s.push(Dropper(2)).unwrap();
    println!("before: {}", s.debug_string());
    s.reverse();
    println!("reversed: {}", s.debug_string());
    s.push(Dropper(3)).unwrap();
    println!("before 2: {}", s.debug_string());
    s.reverse();
    println!("reversed 2: {}", s.debug_string());
}

#[test]
fn literal() {
    let svec: SVec16<_> = SVec16::from_iter(vec![1, 2, 3]);
    assert_eq!(svec.len(), 3);
    assert_eq!(svec.to_string(), "[ 1, 2, 3 ]");
}

#[test]
fn collect() {
    let svec: SVec16<_> = SVec16::from_iter(vec![1, 2, 3].into_iter().collect());
    assert_eq!(svec.len(), 3);
    assert_eq!(svec.to_string(), "[ 1, 2, 3 ]");
}

#[test]
fn boxed() {
    const SIZE: usize = 256;

    let start = Instant::now();
    for _ in 0..10000 {
        let mut v = Vec::<[u8; SIZE]>::with_capacity(8192);
        for j in 0..v.capacity() {
            v.push([j as u8; SIZE]);
        }
    }
    println!("vec bench: {}", Instant::now().duration_since(start).as_secs_f64());

    let start = Instant::now();
    for _ in 0..10000 {
        let mut v = Box::new(SVec8192::<[u8; SIZE]>::new());
        for j in 0..v.cap() {
            v.push([j as u8; SIZE]).unwrap();
        }
        assert_eq!(v.len(), 8192);
    }
    println!("box bench: {}", Instant::now().duration_since(start).as_secs_f64());

    let start = Instant::now();
    for _ in 0..10000 {
        let mut v = SVec8192::<[u8; SIZE]>::new();
        for j in 0..v.cap() {
            v.push([j as u8; SIZE]).unwrap();
        }
        assert_eq!(v.len(), 8192);
    }
    println!("nobox bench: {}", Instant::now().duration_since(start).as_secs_f64());
}
