use bambu_cloud::CameraSession;
use bambu_cloud::Client;
use bambu_cloud::Device;
use bambu_cloud::LoginResponse;
use bambu_cloud::Method;
use bambu_cloud::Region;

const RS256_ALICE: &str = "eyJhbGciOiJSUzI1NiIsInR5cCI6IkpXVCJ9.eyJ1c2VybmFtZSI6ImFsaWNlIn0.sig";

fn session() -> CameraSession {
    CameraSession {
        ttcode: "t".to_string(),
        authkey: "a".to_string(),
        passwd: "p".to_string(),
        region: "r".to_string(),
    }
}

#[test]
fn session_fields_combine_into_the_streaming_url_text() {
    assert_eq!(session().url_string(), "bambu:///t?authkey=a&passwd=p&region=r");
}

#[test]
fn session_round_trips_through_a_parsed_url() {
    let url = session().to_url().unwrap();
    assert_eq!(url.as_str(), "bambu:///t?authkey=a&passwd=p&region=r");
    assert_eq!(url.scheme(), "bambu");
}

#[test]
fn ttcode_request_carries_both_required_headers() {
    let client = Client::from_login_response(
        Region::Europe,
        LoginResponse { access_token: RS256_ALICE.to_string() },
    )
    .unwrap();
    let device = Device {
        name: "P1".to_string(),
        online: true,
        dev_id: "d1".to_string(),
        print_status: "IDLE".to_string(),
        nozzle_diameter: "0.4".to_string(),
        dev_model_name: "C11".to_string(),
        dev_access_code: "12345678".to_string(),
        dev_product_name: "P1P".to_string(),
    };
    let r = device.ttcode_request(&client);
    assert_eq!(r.method, Method::Post);
    assert_eq!(r.url, "https://api.bambulab.com/v1/iot-service/api/user/ttcode");
    assert_eq!(
        r.headers,
        vec![
            ("Authorization".to_string(), format!("Bearer {RS256_ALICE}")),
            ("user-id".to_string(), "alice".to_string()),
        ]
    );
    assert_eq!(r.body, vec![("dev_id".to_string(), "d1".to_string())]);
    assert!(r.query.is_empty());
}
