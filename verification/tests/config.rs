use rss2cloud_bridge::config::{
    read_config, read_rss_config, read_site_config, save_config, save_rss_config,
    save_site_config, ConfigSlot, FileRead, FileWrite,
};
use rss2cloud_bridge::records::{FolderInfo, RssSource, Settings, Task};
use std::collections::HashMap;

fn carry_out(files: &mut HashMap<String, String>, access: FileWrite) {
    files.insert(access.path, access.content);
}

fn look_up(files: &HashMap<String, String>, access: FileRead) -> Option<String> {
    files.get(&access.path).cloned()
}

#[test]
fn slots_name_their_files() {
    assert_eq!(ConfigSlot::Rss.file_name(), "rss.json");
    assert_eq!(ConfigSlot::Site.file_name(), "node-site-config.json");
}

#[test]
fn reading_names_the_slot_file() {
    assert_eq!(read_rss_config(), FileRead { path: String::from("rss.json") });
    assert_eq!(read_site_config(), FileRead { path: String::from("node-site-config.json") });
    assert_eq!(read_config(ConfigSlot::Site), read_site_config());
}

#[test]
fn saving_writes_the_text_as_given() {
    let text = "{\"mikanani.me\": [{\"name\": \"番組\", \"url\": \"https://x\"}]}\n";
    assert_eq!(
        save_rss_config(String::from(text)),
        FileWrite { path: String::from("rss.json"), content: String::from(text) }
    );
    assert_eq!(
        save_site_config(String::from(text)),
        FileWrite { path: String::from("node-site-config.json"), content: String::from(text) }
    );
}

#[test]
fn saving_keeps_an_empty_text() {
    assert_eq!(
        save_config(ConfigSlot::Rss, String::new()),
        FileWrite { path: String::from("rss.json"), content: String::new() }
    );
}

#[test]
fn a_slot_is_saved_where_it_is_read() {
    for slot in [ConfigSlot::Rss, ConfigSlot::Site] {
        assert_eq!(save_config(slot, String::from("{}")).path, read_config(slot).path);
    }
    assert_ne!(read_rss_config().path, read_site_config().path);
}

#[test]
fn records_hold_their_fields() {
    let source = RssSource {
        name: String::from("show"),
        url: String::from("https://example.org/rss"),
        filter: None,
        cid: Some(String::from("123")),
        site: String::from("example.org"),
    };
    assert_eq!(source.clone(), source);
    let settings = Settings {
        http_proxy: None,
        https_proxy: Some(String::from("http://127.0.0.1:7890")),
        server_mode: true,
        server_port: String::from("8115"),
    };
    assert!(settings.server_mode);
    let task = Task {
        id: String::from("1"),
        name: String::from("episode"),
        status: String::from("running"),
        progress: 40,
        created_at: String::from("2024-01-01T00:00:00Z"),
    };
    assert_eq!(task.progress, 40);
    let folder = FolderInfo {
        cid: String::from("9"),
        name: String::from("anime"),
        parent_id: String::from("0"),
    };
    assert_ne!(folder.cid, folder.parent_id);
}

#[test]
fn saved_text_reads_back_unchanged() {
    let texts = ["", "{}", "{\"a\": [1, 2]}\n", "\u{feff}番組 \r\n\ttab ", " "];
    for text in texts {
        let mut files = HashMap::new();
        carry_out(&mut files, save_rss_config(String::from("earlier")));
        carry_out(&mut files, save_rss_config(String::from(text)));
        assert_eq!(look_up(&files, read_rss_config()), Some(String::from(text)));
        carry_out(&mut files, save_site_config(String::from(text)));
        assert_eq!(look_up(&files, read_site_config()), Some(String::from(text)));
    }
}

#[test]
fn saving_one_slot_leaves_the_other() {
    let mut files = HashMap::new();
    assert_eq!(look_up(&files, read_site_config()), None);
    carry_out(&mut files, save_site_config(String::from("sites")));
    carry_out(&mut files, save_rss_config(String::from("feeds")));
    assert_eq!(look_up(&files, read_site_config()), Some(String::from("sites")));
    assert_eq!(look_up(&files, read_rss_config()), Some(String::from("feeds")));
}
