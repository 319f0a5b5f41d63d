use http_client::urls::{zed_api_base, zed_cloud_base, zed_llm_base};

const BASES: [&str; 4] = [
    "https://zed.dev",
    "https://staging.zed.dev",
    "http://localhost:3000",
    "https://example.com",
];

#[test]
fn services_have_their_bases() {
    let api = BASES.map(zed_api_base);
    let cloud = BASES.map(zed_cloud_base);
    let llm = BASES.map(zed_llm_base);
    assert_eq!(
        api,
        [
            "https://api.zed.dev",
            "https://api-staging.zed.dev",
            "http://localhost:8080",
            "https://example.com",
        ]
    );
    assert_eq!(
        cloud,
        [
            "https://cloud.zed.dev",
            "https://cloud.zed.dev",
            "http://localhost:8787",
            "https://example.com",
        ]
    );
    assert_eq!(
        llm,
        [
            "https://cloud.zed.dev",
            "https://llm-staging.zed.dev",
            "http://localhost:8787",
            "https://example.com",
        ]
    );
}

#[test]
fn service_bases_stay() {
    for base in BASES {
        assert_eq!(zed_api_base(zed_api_base(base)), zed_api_base(base));
        assert_eq!(zed_cloud_base(zed_cloud_base(base)), zed_cloud_base(base));
        assert_eq!(zed_llm_base(zed_llm_base(base)), zed_llm_base(base));
    }
}

#[test]
fn similar_bases_are_kept() {
    for base in ["", "https://zed.dev/", "http://zed.dev", "https://ZED.dev", "http://localhost:3001"] {
        assert_eq!(zed_api_base(base), base);
        assert_eq!(zed_cloud_base(base), base);
        assert_eq!(zed_llm_base(base), base);
    }
}

#[test]
fn cloud_and_llm_differ_on_staging() {
    for base in BASES {
        assert_eq!(
            zed_cloud_base(base) == zed_llm_base(base),
            base != "https://staging.zed.dev"
        );
    }
}
