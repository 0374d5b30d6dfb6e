use bambu_cloud::Region;

#[test]
fn china_uses_cn_hosts() {
    let r = Region::China;
    assert!(r.is_china());
    assert_eq!(r.user_service_host(), "api.bambulab.cn");
    assert_eq!(r.iot_service_host(), "api.bambulab.cn");
    assert_eq!(r.mqtt_host(), "cn.mqtt.bambulab.com");
}

#[test]
fn non_china_regions_share_one_host_triple() {
    let regions = [Region::Europe, Region::NorthAmerica, Region::AsiaPacific, Region::Other];
    for r in regions {
        assert!(!r.is_china());
        assert_eq!(r.user_service_host(), "api.bambulab.com");
        assert_eq!(r.iot_service_host(), "api.bambulab.com");
        assert_eq!(r.mqtt_host(), "us.mqtt.bambulab.com");
    }
}

#[test]
fn resolving_twice_gives_the_same_host() {
    let r = Region::Europe;
    assert_eq!(r.user_service_host(), r.user_service_host());
    assert_eq!(r.mqtt_host(), r.mqtt_host());
}
