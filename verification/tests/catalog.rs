use bilibili_tui::catalog::{extract_hosts, is_overseas_host, region_for_country_code, CatalogCache, Region};

#[test]
fn extracts_and_classifies_cdn_hosts() {
    let text =
        "Host.A=upos-sz-mirrorali.bilivideo.com, https://upos-hz-mirrorakam.akamaized.net/path";
    let hosts = extract_hosts(text);
    assert_eq!(hosts.len(), 2);
    assert!(!is_overseas_host(&hosts[0]));
    assert!(is_overseas_host(&hosts[1]));
}

#[test]
fn extracted_hosts_are_lower_case_and_filtered() {
    let text = "UPOS-SZ-MIRRORCOS.BILIVIDEO.COM proxy-tf-all-ws.bilivideo.com upos-x.example.com\nupos-sz-mirrorasiaov.bilibilivideo.com;";
    let hosts = extract_hosts(text);
    assert_eq!(
        hosts,
        vec![
            "proxy-tf-all-ws.bilivideo.com",
            "upos-sz-mirrorasiaov.bilibilivideo.com",
        ]
    );
    assert_eq!(extract_hosts("upos-a.akamaized.net"), vec!["upos-a.akamaized.net"]);
    assert!(extract_hosts("").is_empty());
}

#[test]
fn uppercase_prefixes_are_not_hosts() {
    assert_eq!(extract_hosts("Upos-a.bilivideo.com upos-B.bilivideo.com"), vec!["upos-b.bilivideo.com"]);
}

#[test]
fn country_code_86_is_mainland() {
    assert_eq!(region_for_country_code(86), Region::MainlandChina);
    assert_eq!(region_for_country_code(1), Region::Overseas);
}

#[test]
fn refreshed_catalog_is_sorted_and_unique() {
    let mut cache = CatalogCache::empty();
    assert!(cache.needs_host_refresh(100));
    cache.refresh_hosts(
        &vec![
            "upos-sz-mirrorali.bilivideo.com upos-zz-new.bilivideo.com".to_string(),
            "upos-aa-new.akamaized.net upos-zz-new.bilivideo.com".to_string(),
        ],
        1000,
    );
    assert_eq!(cache.updated_at, 1000);
    assert_eq!(cache.hosts.len(), 15);
    let mut sorted = cache.hosts.clone();
    sorted.sort();
    sorted.dedup();
    assert_eq!(sorted, cache.hosts);
    assert!(cache.hosts.contains(&"upos-zz-new.bilivideo.com".to_string()));
    assert!(!cache.needs_host_refresh(1000 + 86399));
    assert!(cache.needs_host_refresh(1000 + 86400));
}

#[test]
fn regions_split_the_catalog() {
    let mut cache = CatalogCache::empty();
    cache.refresh_hosts(&Vec::new(), 5);
    assert!(cache.needs_region_refresh(5));
    let (region, overseas) = cache.regional_hosts();
    assert_eq!(region, Region::Overseas);
    assert_eq!(
        overseas,
        vec![
            "upos-hz-mirrorakam.akamaized.net",
            "upos-sz-mirrorasiaov.bilibilivideo.com",
            "upos-sz-mirrorcosov.bilivideo.com",
        ]
    );
    cache.set_region(Region::MainlandChina, 6);
    assert!(!cache.needs_region_refresh(6));
    let (region, domestic) = cache.regional_hosts();
    assert_eq!(region, Region::MainlandChina);
    assert_eq!(domestic.len(), 10);
    assert!(domestic.iter().all(|h| !overseas.contains(h)));
}
