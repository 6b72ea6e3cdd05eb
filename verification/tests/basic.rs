#[test]
fn it_works() {
    let result = df_extras::add(2, 2);
    assert_eq!(result, 4);
}

#[test]
fn add_reaches_the_largest_size() {
    assert_eq!(df_extras::add(usize::MAX, 0), usize::MAX);
    assert_eq!(df_extras::add(0, 0), 0);
    assert_eq!(df_extras::add(usize::MAX - 5, 5), usize::MAX);
}
