use podders::dictionary::{build_dictionary, encode_column, lookup, MAX_DICTIONARY};
use podders::Pod5Error;

fn texts(values: &[&str]) -> Vec<String> {
    values.iter().map(|v| v.to_string()).collect()
}

#[test]
fn the_dictionary_keeps_first_occurrences_in_order() {
    let values = texts(&["b", "a", "b", "c", "a", "b"]);
    assert_eq!(build_dictionary(&values), texts(&["b", "a", "c"]));
    assert!(build_dictionary(&Vec::new()).is_empty());
}

#[test]
fn every_index_leads_back_to_its_value() {
    let values = texts(&["R10.4.1", "not-set", "R10.4.1", "unknown", "run-a", "run-a", "unknown"]);
    let (dictionary, keys) = encode_column(&values).unwrap();
    assert_eq!(dictionary, texts(&["R10.4.1", "not-set", "unknown", "run-a"]));
    assert_eq!(keys, vec![0, 1, 0, 2, 3, 3, 2]);
    for (value, key) in values.iter().zip(keys.iter()) {
        assert_eq!(&dictionary[*key as usize], value);
    }
    for i in 0..dictionary.len() {
        for j in 0..i {
            assert_ne!(dictionary[i], dictionary[j]);
        }
    }
}

#[test]
fn lookup_finds_the_first_index_or_nothing() {
    let dictionary = texts(&["x", "y", "z"]);
    assert_eq!(lookup(&dictionary, &"y".to_string()), Some(1));
    assert_eq!(lookup(&dictionary, &"w".to_string()), None);
    assert_eq!(lookup(&Vec::new(), &"x".to_string()), None);
}

#[test]
fn the_greatest_dictionary_that_fits_is_accepted() {
    assert_eq!(MAX_DICTIONARY, 32768);
    let values: Vec<String> = (0..MAX_DICTIONARY).map(|i| format!("value-{}", i)).collect();
    let (dictionary, keys) = encode_column(&values).unwrap();
    assert_eq!(dictionary.len(), 32768);
    assert_eq!(keys[0], 0);
    assert_eq!(keys[32767], 32767);
}

#[test]
fn one_value_too_many_is_an_overflow() {
    let values: Vec<String> = (0..MAX_DICTIONARY + 1).map(|i| format!("value-{}", i)).collect();
    assert_eq!(encode_column(&values).err(), Some(Pod5Error::DictionaryOverflow));
}
