use renderer::templates::hello;

#[test]
fn hello_greets_the_given_name() {
    let page = hello("world");
    assert_eq!(page.0.name, "world");
}
