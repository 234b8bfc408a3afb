use my_option::option::MyOption;

fn nobody() -> MyOption<&'static str> {
    MyOption::Absent
}

fn vikings() -> MyOption<&'static str> {
    MyOption::Present("vikings")
}

fn is_even(n: &i32) -> bool {
    n % 2 == 0
}

fn sq(x: u32) -> MyOption<u32> {
    MyOption::Present(x * x)
}

fn nope(_: u32) -> MyOption<u32> {
    MyOption::Absent
}

#[test]
fn xor_test() {
    let x = MyOption::Present(2);
    let y: MyOption<u32> = MyOption::Absent;
    assert_eq!(x.xor(y), MyOption::Present(2));

    let x: MyOption<u32> = MyOption::Absent;
    let y = MyOption::Present(2);
    assert_eq!(x.xor(y), MyOption::Present(2));

    let x = MyOption::Present(2);
    let y = MyOption::Present(2);
    assert_eq!(x.xor(y), MyOption::Absent);

    let x: MyOption<u32> = MyOption::Absent;
    let y: MyOption<u32> = MyOption::Absent;
    assert_eq!(x.xor(y), MyOption::Absent);
}

#[test]
fn or_else_test() {
    assert_eq!(
        MyOption::Present("barbarians").or_else(vikings),
        MyOption::Present("barbarians")
    );
    assert_eq!(MyOption::Absent.or_else(vikings), MyOption::Present("vikings"));
    assert_eq!(MyOption::Absent.or_else(nobody), MyOption::Absent);
}

#[test]
fn or_test() {
    let x = MyOption::Present(2);
    let y = MyOption::Absent;
    assert_eq!(x.or(y), MyOption::Present(2));

    let x = MyOption::Absent;
    let y = MyOption::Present(100);
    assert_eq!(x.or(y), MyOption::Present(100));

    let x = MyOption::Present(2);
    let y = MyOption::Present(100);
    assert_eq!(x.or(y), MyOption::Present(2));

    let x: MyOption<i32> = MyOption::Absent;
    let y = MyOption::Absent;
    assert_eq!(x.or(y), MyOption::Absent);
}

#[test]
fn filter_test() {
    assert_eq!(MyOption::Absent.filter(is_even), MyOption::Absent);
    assert_eq!(MyOption::Present(3).filter(is_even), MyOption::Absent);
    assert_eq!(MyOption::Present(4).filter(is_even), MyOption::Present(4));
}

#[test]
fn and_then_test() {
    assert_eq!(
        MyOption::Present(2).and_then(sq).and_then(sq),
        MyOption::Present(16)
    );
    assert_eq!(
        MyOption::Present(2).and_then(sq).and_then(nope),
        MyOption::Absent
    );
    assert_eq!(
        MyOption::Present(2).and_then(nope).and_then(sq),
        MyOption::Absent
    );
    assert_eq!(MyOption::Absent.and_then(sq).and_then(sq), MyOption::Absent);
}

#[test]
fn and_test() {
    let x = MyOption::Present(2);
    let y: MyOption<&str> = MyOption::Absent;
    assert_eq!(x.and(y), MyOption::Absent);

    let x: MyOption<u32> = MyOption::Absent;
    let y = MyOption::Present("foo");
    assert_eq!(x.and(y), MyOption::Absent);

    let x = MyOption::Present(2);
    let y = MyOption::Present("foo");
    assert_eq!(x.and(y), MyOption::Present("foo"));

    let x: MyOption<u32> = MyOption::Absent;
    let y: MyOption<&str> = MyOption::Absent;
    assert_eq!(x.and(y), MyOption::Absent);
}

#[test]
fn ok_or_else_test() {
    let x = MyOption::Present("foo");
    assert_eq!(x.ok_or_else(|| 0), Ok("foo"));

    let x: MyOption<&str> = MyOption::Absent;
    assert_eq!(x.ok_or_else(|| 0), Err(0));
}

#[test]
fn is_some_and_is_none() {
    let x: MyOption<u32> = MyOption::Present(2);
    assert_eq!(x.is_some(), true);

    let x: MyOption<u32> = MyOption::Absent;
    assert_eq!(x.is_some(), false);
}

#[test]
fn map_test() {
    let maybe_some_string = MyOption::Present(String::from("Hello, Map Test!"));

    // `map` takes its receiver by value, consuming `maybe_some_string`
    let maybe_some_len = maybe_some_string.map(|s| s.len());

    assert_eq!(maybe_some_len, MyOption::Present(16));
}

#[test]
fn map_or_test() {
    let x = MyOption::Present("foo");
    assert_eq!(x.map_or(42, |v| v.len()), 3);

    let x: MyOption<&str> = MyOption::Absent;
    assert_eq!(x.map_or(42, |v| v.len()), 42);
}

#[test]
fn map_or_else_test() {
    let k = 21;

    let x = MyOption::Present("foo");
    assert_eq!(x.map_or_else(|| 2 * k, |v| v.len()), 3);

    let x: MyOption<&str> = MyOption::Absent;
    assert_eq!(x.map_or_else(|| 2 * k, |v| v.len()), 42);
}

#[test]
fn as_ref_test() {
    let text: MyOption<String> = MyOption::Present("Hello, Ref Test!".to_string());
    // Borrow with `as_ref`, then consume the borrowed option with `map`,
    // leaving `text` in place.
    let text_length: MyOption<usize> = text.as_ref().map(|s| s.len());
    println!("still can print text: {:?}", text);
    assert_eq!(text_length, MyOption::Present(16));
    assert_eq!(text, MyOption::Present("Hello, Ref Test!".to_string()));
}

#[test]
fn as_mut_test() {
    let mut x = MyOption::Present(2);
    match x.as_mut() {
        MyOption::Present(v) => *v = 42,
        MyOption::Absent => {}
    }
    assert_eq!(x, MyOption::Present(42));
}

#[test]
fn unwrap_test() {
    let x = MyOption::Present("air");
    assert_eq!(x.unwrap(), "air");
}

#[test]
#[should_panic(expected = "called `MyOption::unwrap()` on an `Absent` value")]
fn unwrap_test_panic() {
    let x: MyOption<&str> = MyOption::Absent;
    assert_eq!(x.unwrap(), "air"); // fails
}

#[test]
fn unwrap_or_test() {
    assert_eq!(MyOption::Present("car").unwrap_or("bike"), "car");
    assert_eq!(MyOption::Absent.unwrap_or("bike"), "bike");
}

#[test]
fn unwrap_or_else_test() {
    let k = 10;
    assert_eq!(MyOption::Present(4).unwrap_or_else(|| 2 * k), 4);
    assert_eq!(MyOption::Absent.unwrap_or_else(|| 2 * k), 20);
}

#[test]
fn ok_or_test() {
    let x = MyOption::Present("foo");
    assert_eq!(x.ok_or(0), Ok("foo"));

    let x: MyOption<&str> = MyOption::Absent;
    assert_eq!(x.ok_or(0), Err(0));
}
