use fibs::Fibonacci;

#[test]
fn sanity() {
    assert_eq!(Ok(0), Fibonacci::<i32>::f(0));
    assert_eq!(Ok(1), Fibonacci::<i32>::f(1));
    assert_eq!(Ok(1), Fibonacci::<i32>::f(2));
    assert_eq!(Ok(2), Fibonacci::<i32>::f(3));

    assert_eq!(
        Ok(233),
        Fibonacci::<u8>::f(13),
        "Must be able to get the largest value that will fit in the target type"
    );

    let mut f: Fibonacci<i32> = Fibonacci::default();
    assert_eq!(Some(0), f.next());
    assert_eq!(Some(1), f.next());
    assert_eq!(Some(1), f.next());
    assert_eq!(Some(2), f.next());
}

#[test]
fn first_terms_match_the_standard_sequence() {
    let expected: Vec<u32> = vec![
        0, 1, 1, 2, 3, 5, 8, 13, 21, 34, 55, 89, 144, 233, 377, 610, 987, 1597, 2584, 4181, 6765,
    ];
    for (n, term) in expected.iter().enumerate() {
        assert_eq!(Ok(*term), Fibonacci::<u32>::f(n));
    }
}

#[test]
fn max_n_u8() {
    assert_eq!(Ok(233), Fibonacci::<u8>::f(13));
    assert_eq!(Err((13, 233)), Fibonacci::<u8>::f(14));
    assert_eq!(Err((13, 233)), Fibonacci::<u8>::f(15));
    assert_eq!(Err((13, 233)), Fibonacci::<u8>::f(usize::MAX));
}

#[test]
fn max_n_i8() {
    assert_eq!(Ok(89), Fibonacci::<i8>::f(11));
    assert_eq!(Err((11, 89)), Fibonacci::<i8>::f(12));
    assert_eq!(Err((11, 89)), Fibonacci::<i8>::f(usize::MAX));
}

#[test]
fn max_n_u64() {
    assert_eq!(Ok(12200160415121876738), Fibonacci::<u64>::f(93));
    assert_eq!(Err((93, 12200160415121876738)), Fibonacci::<u64>::f(94));
    assert_eq!(Err((93, 12200160415121876738)), Fibonacci::<u64>::f(usize::MAX));
}

#[test]
fn max_n_u128() {
    assert_eq!(
        Ok(332825110087067562321196029789634457848),
        Fibonacci::<u128>::f(186)
    );
    assert_eq!(
        Err((186, 332825110087067562321196029789634457848)),
        Fibonacci::<u128>::f(187)
    );
}

#[test]
fn max_n_i16() {
    assert_eq!(Ok(28657), Fibonacci::<i16>::f(23));
    assert_eq!(Err((23, 28657)), Fibonacci::<i16>::f(24));
}

#[test]
fn max_n_u16() {
    assert_eq!(Ok(46368), Fibonacci::<u16>::f(24));
    assert_eq!(Err((24, 46368)), Fibonacci::<u16>::f(25));
}

#[test]
fn max_n_i32() {
    assert_eq!(Ok(1836311903), Fibonacci::<i32>::f(46));
    assert_eq!(Err((46, 1836311903)), Fibonacci::<i32>::f(47));
}

#[test]
fn max_n_u32() {
    assert_eq!(Ok(2971215073), Fibonacci::<u32>::f(47));
    assert_eq!(Err((47, 2971215073)), Fibonacci::<u32>::f(48));
}

#[test]
fn max_n_i64() {
    assert_eq!(Ok(7540113804746346429), Fibonacci::<i64>::f(92));
    assert_eq!(Err((92, 7540113804746346429)), Fibonacci::<i64>::f(93));
}

#[test]
fn max_n_i128() {
    assert_eq!(
        Ok(127127879743834334146972278486287885163),
        Fibonacci::<i128>::f(184)
    );
    assert_eq!(
        Err((184, 127127879743834334146972278486287885163)),
        Fibonacci::<i128>::f(185)
    );
}

#[test]
fn producer_emits_every_representable_term_then_stops() {
    let mut producer: Fibonacci<u8> = Fibonacci::default();
    let mut produced: Vec<u8> = Vec::new();
    while let Some(term) = producer.next() {
        produced.push(term);
    }
    assert_eq!(
        vec![0, 1, 1, 2, 3, 5, 8, 13, 21, 34, 55, 89, 144, 233],
        produced
    );
}

#[test]
fn exhaustion_is_permanent() {
    let mut producer: Fibonacci<u8> = Fibonacci::default();
    assert!(!producer.has_overflowed());
    let mut count: usize = 0;
    while producer.next().is_some() {
        count += 1;
    }
    assert_eq!(14, count);
    assert!(producer.has_overflowed());
    assert_eq!(None, producer.next());
    assert_eq!(None, producer.next());
    assert_eq!(None, producer.next());
    assert!(producer.has_overflowed());
}

#[test]
fn producer_agrees_with_accessor() {
    for n in 0..30usize {
        let mut producer: Fibonacci<u16> = Fibonacci::new();
        let mut last: Option<u16> = None;
        for _ in 0..=n {
            last = producer.next();
        }
        assert_eq!(Fibonacci::<u16>::f(n).ok(), last);
    }
}

#[test]
fn failure_pair_saturates() {
    let at_threshold = Fibonacci::<u16>::f(25);
    assert_eq!(Err((24, 46368)), at_threshold);
    for n in 25..40usize {
        assert_eq!(at_threshold, Fibonacci::<u16>::f(n));
    }
    assert_eq!(at_threshold, Fibonacci::<u16>::f(usize::MAX));
}
