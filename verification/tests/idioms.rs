use exercises::config::MyConfiguration;
use exercises::idioms::{a_to_b, Foo};
use exercises::people::Person;
use exercises::seconds::Second;
use exercises::text::{say_hello, say_hello_again, three_consecutive_vowels};
use std::path::PathBuf;
use std::rc::Rc;
use std::time::Duration;

#[test]
fn test_three_consecutive_vowels() {
    let ferris = "ferris".to_string();
    assert!(!three_consecutive_vowels(&ferris));

    assert!(three_consecutive_vowels("hawaii"));
}

#[test]
fn test_concat() {
    assert_eq!(say_hello_again(), "Hello, my name is Bob. Nice to meet you");
}

#[test]
fn test_format() {
    assert_eq!(say_hello("Bob"), "Hello, Bob");
}

#[test]
fn test_second() {
    let four_score_and_seven = Second::new(87);
    assert_eq!(four_score_and_seven.value(), 87);
}

#[test]
fn test_default_second() {
    assert_eq!(Second::default().value(), 0);
}

#[test]
fn test_defaults() {
    let config = MyConfiguration::default();
    assert_eq!(config.output, None);
    assert_eq!(config.search_path, vec![] as Vec<PathBuf>);
    assert_eq!(config.timeout, Duration::from_secs(0));
    assert_eq!(config.check, false);
}

#[test]
fn test_drop() {
    let _bob = Person::new("Bob", 42);
    {
        let _dave = Person::new("Dave", 21);
        {
            let _greg = Person::new("Greg", 99);
            let _baz = Person::new("Baz", 10);
        }
    }
}

#[test]
fn test_mem_take() {
    let mut foo = Foo::A {
        name: "Bob".into(),
        x: 100,
    };

    a_to_b(&mut foo);

    if let Foo::A { name: _, x: _ } = &foo {
    } else {
        assert!(false);
    }

    let mut foo_again = Foo::A {
        name: "Dave".into(),
        x: 0,
    };

    a_to_b(&mut foo_again);

    if let Foo::B { name: _ } = &foo_again {
    } else {
        assert!(false);
    }
}

#[test]
fn test_selective_move_into_closure() {
    let val1 = Rc::new(1);
    let val2 = Rc::new(2);
    let val3 = Rc::new(3);

    let closure = {
        let val2 = val2.clone();
        let val3 = val3.as_ref();
        move || *val1 + *val2 + *val3
    };

    assert_eq!(closure(), 6);
    assert_eq!(*val2, 2);
    assert_eq!(*val3, 3);
}

#[test]
fn test_option_iteration() {
    let turing = Some("Turing");
    let mut logicians = vec!["Curry", "Kleene", "Markov"];

    logicians.extend(turing);
    assert_eq!(logicians, &["Curry", "Kleene", "Markov", "Turing"]);

    let timmy = Some("Jose");
    for logician in logicians.iter().chain(timmy.iter()) {
        println!("{:?} is a logician", logician);
    }
}

#[test]
fn test_temp_mut_block() {
    let data = {
        let mut data = vec![5, 1, 2, 3, 4];
        data.sort();
        data
    };

    assert_eq!(data, &[1, 2, 3, 4, 5]);
}

#[test]
fn test_temp_mut_shadowing() {
    let mut data = vec![5, 2, 1, 4, 3];
    data.sort();
    let data = data;
    assert_eq!(data, &[1, 2, 3, 4, 5]);
}

#[test]
fn kept_name_after_transition() {
    let mut foo = Foo::A {
        name: "Ada".into(),
        x: 0,
    };
    a_to_b(&mut foo);
    if let Foo::B { name } = &foo {
        assert_eq!(name, "Ada");
    } else {
        assert!(false);
    }
}

#[test]
fn vowel_checks() {
    assert!(three_consecutive_vowels("queueing"));
    assert!(!three_consecutive_vowels(""));
    assert!(!three_consecutive_vowels("rhythm"));
    assert!(!three_consecutive_vowels("aero"));
}

#[test]
fn person_fields() {
    let p = Person::new("Grace", 36);
    assert_eq!(p.name, "Grace");
    assert_eq!(p.age, 36);
}
