use backend_supervisor::config::api_port;
use backend_supervisor::endpoint::{
    get_api_url, resolve_api_endpoint, ApiEndpoint, DEFAULT_API_PORT,
};

#[test]
fn missing_configuration_gives_the_default_endpoint() {
    assert_eq!(get_api_url(None), "http://localhost:8080");
    assert_eq!(resolve_api_endpoint(None), ApiEndpoint { port: 8080 });
    assert_eq!(DEFAULT_API_PORT, 8080);
}

#[test]
fn configured_port_is_used() {
    assert_eq!(get_api_url(Some("{\"ports\":{\"api\":9090}}")), "http://localhost:9090");
    assert_eq!(
        resolve_api_endpoint(Some("{\"ports\":{\"api\":9090}}")),
        ApiEndpoint { port: 9090 }
    );
}

#[test]
fn malformed_configuration_falls_back_to_the_default() {
    for text in [
        "",
        "   ",
        "{",
        "}",
        "{\"ports\":{\"api\":9090}",
        "{\"ports\":{\"api\":9090}}}",
        "{\"ports\":{\"api\":9090}} x",
        "{\"ports\":{\"api\":9090,}}",
        "{\"ports\":{\"api\":9090},}",
        "{\"ports\":{\"api\" 9090}}",
        "{ports:{api:9090}}",
        "{'ports':{'api':9090}}",
        "{\"ports\":{\"api\":09090}}",
        "{\"ports\":{\"api\":9090}, \"other\": tru}",
        "{\"ports\":{\"api\":9090}, \"other\": [1,]}",
        "{\"ports\":{\"api\":9090}, \"other\": \"unterminated}",
        "{\"ports\":{\"api\":9090}, \"other\": \"bad \\x escape\"}",
        "{\"ports\":{\"api\":9090}, \"other\": \"bad \\u12g4 escape\"}",
        "{\"ports\":{\"api\":9090}, \"other\": \"line\nbreak\"}",
        "{\"ports\":{\"api\":9090}, \"other\": 1.}",
        "{\"ports\":{\"api\":9090}, \"other\": 1e}",
        "{\"ports\":{\"api\":9090}, \"other\": -}",
        "{\"ports\":{\"api\":9090}, \"other\": +1}",
        "not json at all",
    ] {
        assert_eq!(get_api_url(Some(text)), "http://localhost:8080", "text: {}", text);
    }
}

#[test]
fn missing_field_falls_back_to_the_default() {
    for text in [
        "{}",
        "{\"ports\":{}}",
        "{\"ports\":{\"web\":9090}}",
        "{\"port\":{\"api\":9090}}",
        "{\"api\":9090}",
        "{\"ports\":9090}",
        "{\"ports\":[{\"api\":9090}]}",
        "{\"ports\":null}",
        "{\"outer\":{\"ports\":{\"api\":9090}}}",
        "[{\"ports\":{\"api\":9090}}]",
        "9090",
        "\"ports\"",
        "null",
        "{\"PORTS\":{\"API\":9090}}",
        "{\"ports \":{\"api\":9090}}",
        "{\"ports\":{\"ap\":9090}}",
        "{\"ports\":{\"apis\":9090}}",
    ] {
        assert_eq!(get_api_url(Some(text)), "http://localhost:8080", "text: {}", text);
    }
}

#[test]
fn port_that_is_not_a_plain_integer_in_range_falls_back_to_the_default() {
    for text in [
        "{\"ports\":{\"api\":\"9090\"}}",
        "{\"ports\":{\"api\":9090.0}}",
        "{\"ports\":{\"api\":9.09e3}}",
        "{\"ports\":{\"api\":9090e0}}",
        "{\"ports\":{\"api\":-9090}}",
        "{\"ports\":{\"api\":0}}",
        "{\"ports\":{\"api\":-0}}",
        "{\"ports\":{\"api\":65536}}",
        "{\"ports\":{\"api\":70000}}",
        "{\"ports\":{\"api\":4294967297}}",
        "{\"ports\":{\"api\":18446744073709551617}}",
        "{\"ports\":{\"api\":99999999999999999999999999999999999999}}",
        "{\"ports\":{\"api\":true}}",
        "{\"ports\":{\"api\":null}}",
        "{\"ports\":{\"api\":[9090]}}",
        "{\"ports\":{\"api\":{\"value\":9090}}}",
    ] {
        assert_eq!(get_api_url(Some(text)), "http://localhost:8080", "text: {}", text);
    }
}

#[test]
fn port_bounds_are_one_and_65535() {
    assert_eq!(api_port(b"{\"ports\":{\"api\":1}}"), Some(1));
    assert_eq!(api_port(b"{\"ports\":{\"api\":65535}}"), Some(65535));
    assert_eq!(api_port(b"{\"ports\":{\"api\":0}}"), None);
    assert_eq!(api_port(b"{\"ports\":{\"api\":65536}}"), None);
    assert_eq!(get_api_url(Some("{\"ports\":{\"api\":1}}")), "http://localhost:1");
    assert_eq!(get_api_url(Some("{\"ports\":{\"api\":65535}}")), "http://localhost:65535");
}

#[test]
fn whitespace_and_other_members_do_not_matter() {
    let text = " \t\r\n{ \"name\" : \"app\" ,\n \"ports\" : { \"web\" : 3000 , \"api\" :\t9090 } ,\n \"list\" : [ 1 , [ ] , { } , \"x\" , true , false , null , -1.5e+3 ] }\n";
    assert_eq!(get_api_url(Some(text)), "http://localhost:9090");
}

#[test]
fn last_of_repeated_names_counts() {
    assert_eq!(api_port(b"{\"ports\":{\"api\":1000,\"api\":2000}}"), Some(2000));
    assert_eq!(api_port(b"{\"ports\":{\"api\":1000},\"ports\":{\"api\":2000}}"), Some(2000));
    assert_eq!(api_port(b"{\"ports\":{\"api\":1000},\"ports\":{}}"), None);
    assert_eq!(api_port(b"{\"ports\":{\"api\":1000,\"api\":\"x\"}}"), None);
    assert_eq!(api_port(b"{\"ports\":{\"api\":\"x\",\"api\":3000}}"), Some(3000));
}

#[test]
fn escaped_names_are_read_as_what_they_spell() {
    assert_eq!(api_port(b"{\"\\u0070orts\":{\"ap\\u0069\":9090}}"), Some(9090));
    assert_eq!(api_port(b"{\"\\u0050orts\":{\"api\":9090}}"), None);
    assert_eq!(api_port(b"{\"ports\":{\"a\\u00e9pi\":9090}}"), None);
    assert_eq!(api_port(b"{\"ports\":{\"api\\n\":9090}}"), None);
    assert_eq!(api_port(b"{\"ports\":{\"\\/api\":9090}}"), None);
}

#[test]
fn text_outside_ascii_is_carried_through_strings() {
    let text = "{\"title\":\"Überwachung – サーバー\",\"ports\":{\"api\":9090}}";
    assert_eq!(get_api_url(Some(text)), "http://localhost:9090");
}

#[test]
fn url_is_the_port_in_decimal_without_leading_zeros() {
    assert_eq!(ApiEndpoint { port: 0 }.url(), "http://localhost:0");
    assert_eq!(ApiEndpoint { port: 7 }.url(), "http://localhost:7");
    assert_eq!(ApiEndpoint { port: 80 }.url(), "http://localhost:80");
    assert_eq!(ApiEndpoint { port: 443 }.url(), "http://localhost:443");
    assert_eq!(ApiEndpoint { port: 8080 }.url(), "http://localhost:8080");
    assert_eq!(ApiEndpoint { port: 10000 }.url(), "http://localhost:10000");
    assert_eq!(ApiEndpoint { port: 10203 }.url(), "http://localhost:10203");
    assert_eq!(ApiEndpoint { port: 65535 }.url(), "http://localhost:65535");
    assert_eq!(ApiEndpoint { port: 8080 }.host(), "localhost");
}

#[test]
fn every_port_round_trips_through_configuration_and_url() {
    for port in [1u16, 9, 10, 99, 100, 1023, 1024, 3000, 8080, 9090, 49152, 65535] {
        let text = format!("{{\"ports\":{{\"api\":{}}}}}", port);
        assert_eq!(api_port(text.as_bytes()), Some(port));
        assert_eq!(get_api_url(Some(text.as_str())), format!("http://localhost:{}", port));
    }
}
