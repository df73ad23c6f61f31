use rpc::httpc::GenHttpClientBody;

fn accepts<T: GenHttpClientBody>(_body: T) -> bool {
    true
}

#[test]
fn plain_value_types_serve_as_request_bodies() {
    assert!(accepts("a literal"));
    assert!(accepts(String::from("a string")));
    assert!(accepts(vec![1u8, 2, 3]));
}
