use maxima::downloads_view::{queued_download_names, QueuedDownload};
use maxima::resources::{windows_resource_properties, PRODUCT_VERSION_INFO};

#[test]
fn no_resource_off_windows() {
    assert!(windows_resource_properties(false, "maxima", "Maxima", "1.2.3", "GPL-3.0", "repo").is_none());
}

#[test]
fn resource_property_table_on_windows() {
    let props = windows_resource_properties(
        true,
        "maxima-cli",
        "Maxima CLI",
        "0.1.0",
        "GPL-3.0",
        "https://github.com/ArmchairDevelopers/Maxima",
    )
    .unwrap();
    let pairs: Vec<(&str, &str)> = props.iter().map(|p| (p.key.as_str(), p.value.as_str())).collect();
    assert_eq!(
        pairs,
        vec![
            ("Comments", "Maxima Game Launcher - https://github.com/ArmchairDevelopers/Maxima"),
            ("CompanyName", "Armchair Developers"),
            ("FileDescription", "Maxima CLI"),
            ("FileVersion", "0.1.0"),
            ("InternalName", "maxima-cli"),
            ("LegalTrademarks", "GPL-3.0"),
            ("ProductName", "Maxima CLI"),
            ("ProductVersion", "0.1.0"),
        ]
    );
    assert_eq!(PRODUCT_VERSION_INFO, 0x0001_0000_0000_0000);
}

fn queued(slug: &str) -> QueuedDownload {
    QueuedDownload { slug: slug.to_string(), downloaded_bytes: 0, total_bytes: 1 }
}

fn games() -> Vec<(String, String)> {
    vec![
        ("bf1".to_string(), "Battlefield 1".to_string()),
        ("me3".to_string(), "Mass Effect 3".to_string()),
        ("bf1".to_string(), "shadowed".to_string()),
    ]
}

#[test]
fn queue_names_in_order() {
    let names = queued_download_names(&vec![queued("me3"), queued("bf1")], &games()).unwrap();
    assert_eq!(names, vec!["Mass Effect 3".to_string(), "Battlefield 1".to_string()]);
    assert_eq!(queued_download_names(&vec![], &games()).unwrap().len(), 0);
}

#[test]
fn unknown_slug_gives_none() {
    assert!(queued_download_names(&vec![queued("me3"), queued("ds")], &games()).is_none());
    assert!(queued_download_names(&vec![queued("me3")], &vec![]).is_none());
}
