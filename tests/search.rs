use find_id_ui::config::{load_config, save_config, Config};
use find_id_ui::find_id::{
    dedup, find_id, normalize_query, search_file, search_guid, search_media_id, search_short_id, search_tree, skipped_media_ids,
    MatchInfo,
};
use find_id_ui::xml::{parse_tree, XmlNode, XmlTree};

fn rec(
    tag: &str,
    name: &str,
    id: &str,
    short_id: &str,
    media_id: &str,
    language: &str,
    audio_file: &str,
) -> MatchInfo {
    MatchInfo {
        tag: tag.to_string(),
        name: name.to_string(),
        id: id.to_string(),
        short_id: short_id.to_string(),
        media_id: media_id.to_string(),
        language: language.to_string(),
        audio_file: audio_file.to_string(),
    }
}

fn files(texts: &[&str]) -> Vec<String> {
    texts.iter().map(|t| t.to_string()).collect()
}

const SOUND: &str = r#"<WwiseDocument><Sound Name="Explosion" ID="GUID-ABC123"/></WwiseDocument>"#;
const EVENT: &str = r#"<WwiseDocument><Event Name="Trigger" ID="GUID-DEF456"/></WwiseDocument>"#;
const FOOTSTEP: &str = r#"<WwiseDocument><Sound Name="Footstep" ID="S-1"><Source><MediaID ID="MED-001"/></Source><LanguageSpecificProperty>English</LanguageSpecificProperty><AudioFileProperty>footstep.wem</AudioFileProperty></Sound></WwiseDocument>"#;
const SHORT: &str = r#"<WwiseDocument><Sound Name="Boom" ID="GUID-1" ShortID="98765"/><Bus Name="Master" ID="GUID-765"/></WwiseDocument>"#;

#[test]
fn guid_search_over_two_files() {
    let r = find_id("abc", &files(&[SOUND, EVENT]), true, false, false);
    assert_eq!(r, vec![rec("Sound", "Explosion", "GUID-ABC123", "?", "", "", "")]);
}

#[test]
fn media_id_search_reports_owner() {
    let r = find_id("med-001", &files(&[FOOTSTEP]), false, false, true);
    assert_eq!(
        r,
        vec![rec("Sound", "Footstep", "S-1", "?", "MED-001", "English", "footstep.wem")]
    );
}

#[test]
fn media_id_without_owner_is_skipped() {
    let text = r#"<Top><MediaID ID="MED-001"/></Top>"#;
    assert!(find_id("med", &files(&[text]), false, false, true).is_empty());
}

#[test]
fn media_owner_without_language_gives_unknown() {
    let text = r#"<Sound Name="A"><S><MediaID ID="M9"/></S></Sound>"#;
    let r = find_id("m9", &files(&[text]), false, false, true);
    assert_eq!(r, vec![rec("Sound", "A", "?", "?", "M9", "?", "?")]);
}

#[test]
fn search_is_case_insensitive() {
    let fs = files(&[SOUND, EVENT, FOOTSTEP]);
    let upper = find_id("ABC", &fs, true, true, true);
    let lower = find_id("abc", &fs, true, true, true);
    assert_eq!(upper, lower);
    assert_eq!(upper.len(), 1);
}

#[test]
fn identical_records_collapse() {
    let r = find_id("abc", &files(&[SOUND, SOUND, EVENT]), true, false, false);
    assert_eq!(r.len(), 1);
    let both = find_id("98765", &files(&[SHORT]), true, true, false);
    assert_eq!(both, vec![rec("Sound", "Boom", "GUID-1", "98765", "", "", "")]);
}

#[test]
fn corrupted_file_is_isolated() {
    let with_bad = find_id("guid", &files(&[SOUND, "<Sound ID=\"GUID-X\"", EVENT]), true, false, false);
    let without = find_id("guid", &files(&[SOUND, EVENT]), true, false, false);
    assert_eq!(with_bad, without);
    assert_eq!(with_bad.len(), 2);
}

#[test]
fn no_files_no_results() {
    assert!(find_id("abc", &Vec::new(), true, true, true).is_empty());
}

#[test]
fn short_id_strategy_alone() {
    let r = find_id("765", &files(&[SHORT]), false, true, false);
    assert_eq!(r, vec![rec("Sound", "Boom", "GUID-1", "98765", "", "", "")]);
    let g = find_id("765", &files(&[SHORT]), true, false, false);
    assert_eq!(g, vec![rec("Bus", "Master", "GUID-765", "?", "", "", "")]);
}

#[test]
fn query_not_present_gives_nothing() {
    assert!(find_id("zzz", &files(&[SOUND, EVENT, FOOTSTEP, SHORT]), true, true, true).is_empty());
}

#[test]
fn substring_anywhere_matches() {
    let r = find_id("c12", &files(&[SOUND]), true, false, false);
    assert_eq!(r.len(), 1);
}

#[test]
fn search_file_lowers_query() {
    let r = search_file("GUID-DEF", EVENT, true, false, false);
    assert_eq!(r, vec![rec("Event", "Trigger", "GUID-DEF456", "?", "", "", "")]);
    assert!(search_file("x", "not xml", true, true, true).is_empty());
}

#[test]
fn strategies_on_a_built_tree() {
    let node = |tag: &str, id: Option<&str>, short: Option<&str>, parent: Option<usize>, children: Vec<usize>, text: Option<&str>| XmlNode {
        tag: tag.to_string(),
        name: None,
        id: id.map(|s| s.to_string()),
        short_id: short.map(|s| s.to_string()),
        parent,
        children,
        text: text.map(|s| s.to_string()),
    };
    let tree = XmlTree {
        nodes: vec![
            node("", None, None, None, vec![1], None),
            node("Sound", Some("G-Aa"), Some("55"), None, vec![2, 4], None),
            node("Src", None, None, Some(1), vec![3], None),
            node("MediaID", Some("Aa-7"), None, Some(2), vec![], None),
            node("Language", None, None, Some(1), vec![5], Some("Fr")),
            node("", None, None, Some(4), vec![], Some("Fr")),
        ],
    };
    assert_eq!(search_guid("aa", &tree), vec![
        rec("Sound", "?", "G-Aa", "55", "", "", ""),
        rec("MediaID", "?", "Aa-7", "?", "", "", ""),
    ]);
    assert_eq!(search_short_id("5", &tree), vec![rec("Sound", "?", "G-Aa", "55", "", "", "")]);
    assert_eq!(search_media_id("a-7", &tree), vec![rec("Sound", "?", "G-Aa", "?", "Aa-7", "Fr", "?")]);
    assert_eq!(search_tree("zz", &tree, true, true, true), vec![]);
}

#[test]
fn parse_tree_reads_links() {
    let t = parse_tree("<a ID=\"1\"><b Name=\"n\">hi</b></a>").unwrap();
    assert_eq!(t.nodes.len(), 4);
    assert_eq!(t.nodes[1].tag, "a");
    assert_eq!(t.nodes[1].id.as_deref(), Some("1"));
    assert_eq!(t.nodes[1].parent, None);
    assert_eq!(t.nodes[1].children, vec![2]);
    assert_eq!(t.nodes[2].parent, Some(1));
    assert_eq!(t.nodes[2].name.as_deref(), Some("n"));
    assert_eq!(t.nodes[2].text.as_deref(), Some("hi"));
    assert_eq!(t.nodes[3].tag, "");
    assert!(parse_tree("<a>").is_none());
}

#[test]
fn dedup_keeps_first_occurrences() {
    let a = rec("A", "1", "2", "3", "", "", "");
    let b = rec("B", "1", "2", "3", "", "", "");
    let r = dedup(&vec![a.copy(), b.copy(), a.copy(), b.copy()]);
    assert_eq!(r, vec![a, b]);
}

#[test]
fn match_as_json_line() {
    let m = rec("Sound", "Footstep", "S-1", "?", "MED-001", "English", "footstep.wem");
    assert_eq!(
        m.to_string(),
        r#"{"tag": "Sound", "name": "Footstep", "id": "S-1", "short_id": "?", "media_id": "MED-001", "language": "English", "audio_file": "footstep.wem"}"#
    );
}

#[test]
fn config_defaults_and_updates() {
    let c = Config::new();
    assert_eq!(c.path, "");
    assert!(c.check_guid && !c.check_short_id && !c.check_media_id);
    let d = load_config(None);
    assert!(d.check_guid && d.path.is_empty());
    let s = save_config("/p".to_string(), false, true, true);
    assert_eq!(s.path, "/p");
    assert!(!s.check_guid && s.check_short_id && s.check_media_id);
    let l = load_config(Some(s));
    assert_eq!(l.path, "/p");
    assert!(l.check_media_id);
}

#[test]
fn media_id_without_id_never_matches() {
    let text = r#"<Sound Name="S"><L><MediaID/></L></Sound>"#;
    assert!(find_id("", &files(&[text]), false, false, true).is_empty());
    assert!(find_id("?", &files(&[text]), false, false, true).is_empty());
}

#[test]
fn skipped_media_nodes_are_reported() {
    let text = r#"<Top><MediaID ID="MED-1"/><MediaID ID="X"/><A><B><MediaID ID="MED-2"/></B></A></Top>"#;
    let tree = parse_tree(text).unwrap();
    let q = normalize_query("MED");
    assert_eq!(q, "med");
    let skipped = skipped_media_ids(&q, &tree);
    assert_eq!(skipped.len(), 1);
    assert_eq!(tree.nodes[skipped[0]].id.as_deref(), Some("MED-1"));
    assert_eq!(search_media_id(&q, &tree), vec![rec("A", "?", "?", "?", "MED-2", "?", "?")]);
}
