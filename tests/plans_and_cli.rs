use cargo_leptos::cli::{strip_subcommand_word, Commands, Opts};
use cargo_leptos::debounce::{Change, Debouncer};
use cargo_leptos::msg::{Msg, Watched};
use cargo_leptos::pipeline::{assets_stages, full_stages, style_stages, Stage};

#[test]
fn full_pipeline_orders() {
    assert_eq!(
        full_stages(false, true),
        vec![
            Stage::Clean,
            Stage::AssetSync,
            Stage::StyleCompile,
            Stage::ClientCompile,
            Stage::ArtifactGen,
            Stage::ServerCompile
        ]
    );
    assert_eq!(
        full_stages(true, false),
        vec![Stage::Clean, Stage::StyleCompile, Stage::ClientCompile, Stage::ArtifactGen]
    );
    assert_eq!(style_stages(), vec![Stage::StyleCompile, Stage::ArtifactGen]);
    assert_eq!(assets_stages(), vec![Stage::AssetSync]);
    let o = Opts { release: true, csr: true, verbose: 1 };
    assert_eq!(o.stages(true).len(), 5);
}

#[test]
fn command_options() {
    let o = Opts { release: true, csr: false, verbose: 2 };
    assert_eq!(Commands::Watch(o).opts(), Some(o));
    assert_eq!(Commands::Build(o).opts(), Some(o));
    assert_eq!(Commands::Config.opts(), None);
    assert_eq!(Opts::default(), Opts { release: false, csr: false, verbose: 0 });
}

#[test]
fn subcommand_word_is_removed() {
    let args = vec!["cargo-leptos".to_string(), "leptos".to_string(), "watch".to_string()];
    assert_eq!(strip_subcommand_word(args), vec!["cargo-leptos".to_string(), "watch".to_string()]);
    let args = vec!["cargo-leptos".to_string(), "watch".to_string()];
    assert_eq!(strip_subcommand_word(args.clone()), args);
    let args = vec!["leptos".to_string()];
    assert_eq!(strip_subcommand_word(args.clone()), args);
}

#[test]
fn burst_collapses_to_one_event_per_category() {
    let mut d = Debouncer::new(50);
    d.note(Change::Source, 0);
    d.note(Change::Source, 10);
    d.note(Change::Style, 20);
    d.note(Change::Source, 30);
    assert_eq!(d.next_deadline(), Some(70));
    assert!(d.take_due(69).is_empty());
    assert_eq!(d.take_due(70), vec![Msg::StyleChanged]);
    assert!(d.take_due(70).is_empty());
    assert_eq!(d.next_deadline(), Some(80));
    assert_eq!(d.take_due(80), vec![Msg::SrcChanged]);
    d.note(Change::Source, 100);
    d.note(Change::Style, 100);
    assert_eq!(d.take_due(150), vec![Msg::SrcChanged, Msg::StyleChanged]);
    assert_eq!(d.next_deadline(), None);
}

#[test]
fn asset_bursts_become_a_rescan() {
    let mut d = Debouncer::new(100);
    d.note(Change::Asset(Watched::Write("a.css".to_string())), 5);
    assert_eq!(d.take_due(200), vec![Msg::AssetsChanged(Watched::Write("a.css".to_string()))]);
    d.note(Change::Asset(Watched::Create("b".to_string())), 300);
    d.note(Change::Asset(Watched::Remove("b".to_string())), 310);
    assert_eq!(d.take_due(410), vec![Msg::AssetsChanged(Watched::Rescan)]);
}

#[test]
fn deadline_saturates() {
    let mut d = Debouncer::new(100);
    d.note(Change::Style, u64::MAX - 1);
    assert_eq!(d.next_deadline(), Some(u64::MAX));
    assert_eq!(d.take_due(u64::MAX), vec![Msg::StyleChanged]);
}
