use hgnc_lookup::cache::HgncCache;
use hgnc_lookup::lifecycle::{cache_source, CacheSource};
use hgnc_lookup::record::{column_name, HgncRecord, NUM_COLUMNS, SYMBOL};
use hgnc_lookup::{
    create_hgnc_cache_from_reader, query_lookup_table, ArchiveCorruptError, ParseError,
};

fn lines_of(text: &str) -> Vec<String> {
    text.lines().map(|l| l.to_string()).collect()
}

fn build(text: &str) -> HgncCache {
    create_hgnc_cache_from_reader(&lines_of(text)).expect("table has a header")
}

const TABLE: &str = "hgnc_id\tsymbol\tname\talias_symbol\tprev_symbol\n\
HGNC:5\tA1BG\tAlpha-1-B glycoprotein\t\t\n\
HGNC:37133\tA1BG-AS1\tA1BG antisense RNA 1\tFLJ23569\tNCRNA00181|A1BGAS|A1BG-AS\n\
HGNC:24086\tA1CF\tAPOBEC1 complementation factor\tACF|ASP|ACF64|ACF65|APOBEC1CF\t\n";

#[test]
fn scenario_single_record() {
    let cache = build(
        "hgnc_id\tsymbol\tname\talias_symbol\tprev_symbol\nHGNC:1\tA1BG\tAlpha-1-B glycoprotein\t\t\n",
    );
    assert_eq!(cache.len(), 1);
    assert_eq!(cache.record(0).symbol(), "A1BG");
    let rec = query_lookup_table("a1bg".to_string(), &cache).expect("found");
    assert_eq!(rec.hgnc_id(), "HGNC:1");
    assert_eq!(rec.symbol(), "A1BG");
    assert_eq!(rec.name(), "Alpha-1-B glycoprotein");
    // Queries are not trimmed: trailing white space is part of the key.
    let miss = query_lookup_table("A1BG ".to_string(), &cache).unwrap_err();
    assert_eq!(miss.query, "A1BG ");
}

#[test]
fn case_variants_resolve_alike() {
    let cache = build(TABLE);
    for q in ["A1CF", "a1cf", "A1cF", "a1Cf"] {
        let rec = query_lookup_table(q.to_string(), &cache).expect("found");
        assert_eq!(rec.hgnc_id(), "HGNC:24086");
    }
    let rec = query_lookup_table("a1bg-as1".to_string(), &cache).expect("found");
    assert_eq!(rec.symbol(), "A1BG-AS1");
}

#[test]
fn aliases_are_reachable() {
    let cache = build("symbol\talias_symbol\nGENE1\tABC|DEF\nGENE2\t\n");
    assert_eq!(query_lookup_table("ABC".to_string(), &cache).unwrap().symbol(), "GENE1");
    assert_eq!(query_lookup_table("def".to_string(), &cache).unwrap().symbol(), "GENE1");
    assert!(query_lookup_table("ABC|DEF".to_string(), &cache).is_err());
}

#[test]
fn previous_symbols_are_reachable() {
    let cache = build(TABLE);
    for q in ["NCRNA00181", "a1bgas", "A1BG-AS"] {
        assert_eq!(query_lookup_table(q.to_string(), &cache).unwrap().hgnc_id(), "HGNC:37133");
    }
    assert_eq!(query_lookup_table("flj23569".to_string(), &cache).unwrap().hgnc_id(), "HGNC:37133");
}

#[test]
fn alias_pieces_are_trimmed_and_empty_ones_skipped() {
    let cache = build("symbol\talias_symbol\tprev_symbol\nG1\t xyz || w \t | \n");
    assert_eq!(query_lookup_table("XYZ".to_string(), &cache).unwrap().symbol(), "G1");
    assert_eq!(query_lookup_table("w".to_string(), &cache).unwrap().symbol(), "G1");
    assert!(query_lookup_table(" XYZ".to_string(), &cache).is_err());
    assert!(query_lookup_table("".to_string(), &cache).is_err());
    assert!(query_lookup_table(" ".to_string(), &cache).is_err());
    let (_, entries) = cache.into_parts();
    let keys: Vec<&str> = entries.iter().map(|e| e.0.as_str()).collect();
    assert_eq!(keys, vec!["G1", "XYZ", "W"]);
}

#[test]
fn missing_column_reads_empty() {
    let cache = build("symbol\tname\nBRCA1\tBRCA1 DNA repair associated\n");
    let rec = query_lookup_table("brca1".to_string(), &cache).unwrap();
    assert_eq!(rec.hgnc_id(), "");
    assert_eq!(rec.location(), "");
    assert_eq!(rec.alias_symbol(), "");
    assert_eq!(rec.name(), "BRCA1 DNA repair associated");
}

#[test]
fn short_row_reads_empty() {
    let cache = build("hgnc_id\tsymbol\tname\nHGNC:1\tTP53\n");
    let rec = cache.record(0);
    assert_eq!(rec.symbol(), "TP53");
    assert_eq!(rec.name(), "");
}

#[test]
fn columns_found_by_name_in_any_order() {
    let cache = build("name\tsymbol\tpseudogene.org\tmamit-trnadb\nsome name\tXYZ1\tPGO:1\tMT:2\n");
    let rec = query_lookup_table("XYZ1".to_string(), &cache).unwrap();
    assert_eq!(rec.name(), "some name");
    assert_eq!(rec.pseudogene_org(), "PGO:1");
    assert_eq!(rec.mamit_trnadb(), "MT:2");
}

#[test]
fn repeated_header_uses_last() {
    let cache = build("symbol\tname\tname\nG\tfirst\tsecond\n");
    assert_eq!(cache.record(0).name(), "second");
}

#[test]
fn later_record_wins_a_shared_key() {
    let cache = build("symbol\talias_symbol\tprev_symbol\nONE\tSHARED\t\nTWO\t\tshared|one\n");
    assert_eq!(query_lookup_table("shared".to_string(), &cache).unwrap().symbol(), "TWO");
    assert_eq!(query_lookup_table("ONE".to_string(), &cache).unwrap().symbol(), "TWO");
    assert_eq!(query_lookup_table("two".to_string(), &cache).unwrap().symbol(), "TWO");
    let cache = build("symbol\talias_symbol\nTWO\tSHARED\nONE\tshared\n");
    assert_eq!(query_lookup_table("SHARED".to_string(), &cache).unwrap().symbol(), "ONE");
}

#[test]
fn not_found_carries_query() {
    let cache = build(TABLE);
    let e = query_lookup_table("NONEXISTENT_SYMBOL_X".to_string(), &cache).unwrap_err();
    assert_eq!(e.query, "NONEXISTENT_SYMBOL_X");
    assert_eq!(e.message(), "Query 'NONEXISTENT_SYMBOL_X' not found in cache");
    let e = query_lookup_table("nonexistent".to_string(), &cache).unwrap_err();
    assert_eq!(e.query, "nonexistent");
}

#[test]
fn empty_input_is_a_parse_error() {
    assert_eq!(create_hgnc_cache_from_reader(&Vec::new()).err(), Some(ParseError::EmptyInput));
}

#[test]
fn header_only_gives_empty_cache() {
    let cache = build("hgnc_id\tsymbol\n");
    assert_eq!(cache.len(), 0);
    assert!(query_lookup_table("".to_string(), &cache).is_err());
}

#[test]
fn empty_symbol_is_a_key() {
    let cache = build("hgnc_id\tsymbol\nHGNC:9\t\n");
    assert_eq!(query_lookup_table("".to_string(), &cache).unwrap().hgnc_id(), "HGNC:9");
}

#[test]
fn parts_round_trip() {
    let cache = build(TABLE);
    let (records, entries) = cache.into_parts();
    assert_eq!(records.len(), 3);
    assert_eq!(entries.len(), 12);
    let copy: Vec<(String, usize)> = entries.clone();
    let back = HgncCache::from_parts(records, entries).ok().expect("valid parts");
    assert_eq!(back.len(), 3);
    for (key, pos) in copy.iter() {
        let rec = query_lookup_table(key.clone(), &back).unwrap();
        assert_eq!(rec.fields(), back.record(*pos).fields());
    }
    assert_eq!(back.record(2).symbol(), "A1CF");
    let (_, again) = back.into_parts();
    assert_eq!(again, copy);
}

#[test]
fn dangling_entry_is_rejected() {
    let cache = build(TABLE);
    let (records, mut entries) = cache.into_parts();
    entries.push(("EXTRA".to_string(), 3));
    let n = entries.len() - 1;
    assert_eq!(
        HgncCache::from_parts(records, entries).err(),
        Some(ArchiveCorruptError::DanglingIndex { entry: n })
    );
}

#[test]
fn short_record_is_rejected() {
    let good = HgncRecord::from_fields(vec![String::new(); NUM_COLUMNS]).expect("full record");
    assert!(HgncRecord::from_fields(vec![String::new(); 3]).is_none());
    let cache = HgncCache::from_parts(vec![good], vec![("".to_string(), 0)]).ok().unwrap();
    assert_eq!(cache.len(), 1);
    assert_eq!(query_lookup_table("".to_string(), &cache).unwrap().field(SYMBOL), "");
}

#[test]
fn column_names_follow_the_table() {
    assert_eq!(column_name(0), "hgnc_id");
    assert_eq!(column_name(SYMBOL), "symbol");
    assert_eq!(column_name(NUM_COLUMNS - 1), "gencc");
}

#[test]
fn cache_source_prefers_file_then_archive() {
    assert_eq!(cache_source(true, true), CacheSource::RebuildFromFile);
    assert_eq!(cache_source(true, false), CacheSource::RebuildFromFile);
    assert_eq!(cache_source(false, true), CacheSource::LoadArchive);
    assert_eq!(cache_source(false, false), CacheSource::Download);
}
