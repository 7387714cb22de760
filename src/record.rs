//! One gene record: every column of the nomenclature table, as text.
use vstd::prelude::*;

verus! {

/// Number of columns a record holds.
pub const NUM_COLUMNS: usize = 54;

/// Position of the `hgnc_id` column in a record.
pub const HGNC_ID: usize = 0;

/// Position of the `symbol` column in a record.
pub const SYMBOL: usize = 1;

/// Position of the `name` column in a record.
pub const NAME: usize = 2;

/// Position of the `locus_group` column in a record.
pub const LOCUS_GROUP: usize = 3;

/// Position of the `locus_type` column in a record.
pub const LOCUS_TYPE: usize = 4;

/// Position of the `status` column in a record.
pub const STATUS: usize = 5;

/// Position of the `location` column in a record.
pub const LOCATION: usize = 6;

/// Position of the `location_sortable` column in a record.
pub const LOCATION_SORTABLE: usize = 7;

/// Position of the `alias_symbol` column in a record.
pub const ALIAS_SYMBOL: usize = 8;

/// Position of the `alias_name` column in a record.
pub const ALIAS_NAME: usize = 9;

/// Position of the `prev_symbol` column in a record.
pub const PREV_SYMBOL: usize = 10;

/// Position of the `prev_name` column in a record.
pub const PREV_NAME: usize = 11;

/// Position of the `gene_group` column in a record.
pub const GENE_GROUP: usize = 12;

/// Position of the `gene_group_id` column in a record.
pub const GENE_GROUP_ID: usize = 13;

/// Position of the `date_approved_reserved` column in a record.
pub const DATE_APPROVED_RESERVED: usize = 14;

/// Position of the `date_symbol_changed` column in a record.
pub const DATE_SYMBOL_CHANGED: usize = 15;

/// Position of the `date_name_changed` column in a record.
pub const DATE_NAME_CHANGED: usize = 16;

/// Position of the `date_modified` column in a record.
pub const DATE_MODIFIED: usize = 17;

/// Position of the `entrez_id` column in a record.
pub const ENTREZ_ID: usize = 18;

/// Position of the `ensembl_gene_id` column in a record.
pub const ENSEMBL_GENE_ID: usize = 19;

/// Position of the `vega_id` column in a record.
pub const VEGA_ID: usize = 20;

/// Position of the `ucsc_id` column in a record.
pub const UCSC_ID: usize = 21;

/// Position of the `ena` column in a record.
pub const ENA: usize = 22;

/// Position of the `refseq_accession` column in a record.
pub const REFSEQ_ACCESSION: usize = 23;

/// Position of the `ccds_id` column in a record.
pub const CCDS_ID: usize = 24;

/// Position of the `uniprot_ids` column in a record.
pub const UNIPROT_IDS: usize = 25;

/// Position of the `pubmed_id` column in a record.
pub const PUBMED_ID: usize = 26;

/// Position of the `mgd_id` column in a record.
pub const MGD_ID: usize = 27;

/// Position of the `rgd_id` column in a record.
pub const RGD_ID: usize = 28;

/// Position of the `lsdb` column in a record.
pub const LSDB: usize = 29;

/// Position of the `cosmic` column in a record.
pub const COSMIC: usize = 30;

/// Position of the `omim_id` column in a record.
pub const OMIM_ID: usize = 31;

/// Position of the `mirbase` column in a record.
pub const MIRBASE: usize = 32;

/// Position of the `homeodb` column in a record.
pub const HOMEODB: usize = 33;

/// Position of the `snornabase` column in a record.
pub const SNORNABASE: usize = 34;

/// Position of the `bioparadigms_slc` column in a record.
pub const BIOPARADIGMS_SLC: usize = 35;

/// Position of the `orphanet` column in a record.
pub const ORPHANET: usize = 36;

/// Position of the `pseudogene.org` column in a record.
pub const PSEUDOGENE_ORG: usize = 37;

/// Position of the `horde_id` column in a record.
pub const HORDE_ID: usize = 38;

/// Position of the `merops` column in a record.
pub const MEROPS: usize = 39;

/// Position of the `imgt` column in a record.
pub const IMGT: usize = 40;

/// Position of the `iuphar` column in a record.
pub const IUPHAR: usize = 41;

/// Position of the `kznf_gene_catalog` column in a record.
pub const KZNF_GENE_CATALOG: usize = 42;

/// Position of the `mamit-trnadb` column in a record.
pub const MAMIT_TRNADB: usize = 43;

/// Position of the `cd` column in a record.
pub const CD: usize = 44;

/// Position of the `lncrnadb` column in a record.
pub const LNCRNADB: usize = 45;

/// Position of the `enzyme_id` column in a record.
pub const ENZYME_ID: usize = 46;

/// Position of the `intermediate_filament_db` column in a record.
pub const INTERMEDIATE_FILAMENT_DB: usize = 47;

/// Position of the `rna_central_id` column in a record.
pub const RNA_CENTRAL_ID: usize = 48;

/// Position of the `lncipedia` column in a record.
pub const LNCIPEDIA: usize = 49;

/// Position of the `gtrnadb` column in a record.
pub const GTRNADB: usize = 50;

/// Position of the `agr` column in a record.
pub const AGR: usize = 51;

/// Position of the `mane_select` column in a record.
pub const MANE_SELECT: usize = 52;

/// Position of the `gencc` column in a record.
pub const GENCC: usize = 53;

/// The header name of the column at position `k`.
pub open spec fn column_name_spec(k: int) -> Seq<char> {
    if k == 0 {
        "hgnc_id"@
    } else if k == 1 {
        "symbol"@
    } else if k == 2 {
        "name"@
    } else if k == 3 {
        "locus_group"@
    } else if k == 4 {
        "locus_type"@
    } else if k == 5 {
        "status"@
    } else if k == 6 {
        "location"@
    } else if k == 7 {
        "location_sortable"@
    } else if k == 8 {
        "alias_symbol"@
    } else if k == 9 {
        "alias_name"@
    } else if k == 10 {
        "prev_symbol"@
    } else if k == 11 {
        "prev_name"@
    } else if k == 12 {
        "gene_group"@
    } else if k == 13 {
        "gene_group_id"@
    } else if k == 14 {
        "date_approved_reserved"@
    } else if k == 15 {
        "date_symbol_changed"@
    } else if k == 16 {
        "date_name_changed"@
    } else if k == 17 {
        "date_modified"@
    } else if k == 18 {
        "entrez_id"@
    } else if k == 19 {
        "ensembl_gene_id"@
    } else if k == 20 {
        "vega_id"@
    } else if k == 21 {
        "ucsc_id"@
    } else if k == 22 {
        "ena"@
    } else if k == 23 {
        "refseq_accession"@
    } else if k == 24 {
        "ccds_id"@
    } else if k == 25 {
        "uniprot_ids"@
    } else if k == 26 {
        "pubmed_id"@
    } else if k == 27 {
        "mgd_id"@
    } else if k == 28 {
        "rgd_id"@
    } else if k == 29 {
        "lsdb"@
    } else if k == 30 {
        "cosmic"@
    } else if k == 31 {
        "omim_id"@
    } else if k == 32 {
        "mirbase"@
    } else if k == 33 {
        "homeodb"@
    } else if k == 34 {
        "snornabase"@
    } else if k == 35 {
        "bioparadigms_slc"@
    } else if k == 36 {
        "orphanet"@
    } else if k == 37 {
        "pseudogene.org"@
    } else if k == 38 {
        "horde_id"@
    } else if k == 39 {
        "merops"@
    } else if k == 40 {
        "imgt"@
    } else if k == 41 {
        "iuphar"@
    } else if k == 42 {
        "kznf_gene_catalog"@
    } else if k == 43 {
        "mamit-trnadb"@
    } else if k == 44 {
        "cd"@
    } else if k == 45 {
        "lncrnadb"@
    } else if k == 46 {
        "enzyme_id"@
    } else if k == 47 {
        "intermediate_filament_db"@
    } else if k == 48 {
        "rna_central_id"@
    } else if k == 49 {
        "lncipedia"@
    } else if k == 50 {
        "gtrnadb"@
    } else if k == 51 {
        "agr"@
    } else if k == 52 {
        "mane_select"@
    } else if k == 53 {
        "gencc"@
    } else {
        Seq::empty()
    }
}

/// The header name of the column at position `k`.
pub fn column_name(k: usize) -> (r: &'static str)
    requires
        k < NUM_COLUMNS,
    ensures
        r@ == column_name_spec(k as int),
{
    if k == HGNC_ID {
        "hgnc_id"
    } else if k == SYMBOL {
        "symbol"
    } else if k == NAME {
        "name"
    } else if k == LOCUS_GROUP {
        "locus_group"
    } else if k == LOCUS_TYPE {
        "locus_type"
    } else if k == STATUS {
        "status"
    } else if k == LOCATION {
        "location"
    } else if k == LOCATION_SORTABLE {
        "location_sortable"
    } else if k == ALIAS_SYMBOL {
        "alias_symbol"
    } else if k == ALIAS_NAME {
        "alias_name"
    } else if k == PREV_SYMBOL {
        "prev_symbol"
    } else if k == PREV_NAME {
        "prev_name"
    } else if k == GENE_GROUP {
        "gene_group"
    } else if k == GENE_GROUP_ID {
        "gene_group_id"
    } else if k == DATE_APPROVED_RESERVED {
        "date_approved_reserved"
    } else if k == DATE_SYMBOL_CHANGED {
        "date_symbol_changed"
    } else if k == DATE_NAME_CHANGED {
        "date_name_changed"
    } else if k == DATE_MODIFIED {
        "date_modified"
    } else if k == ENTREZ_ID {
        "entrez_id"
    } else if k == ENSEMBL_GENE_ID {
        "ensembl_gene_id"
    } else if k == VEGA_ID {
        "vega_id"
    } else if k == UCSC_ID {
        "ucsc_id"
    } else if k == ENA {
        "ena"
    } else if k == REFSEQ_ACCESSION {
        "refseq_accession"
    } else if k == CCDS_ID {
        "ccds_id"
    } else if k == UNIPROT_IDS {
        "uniprot_ids"
    } else if k == PUBMED_ID {
        "pubmed_id"
    } else if k == MGD_ID {
        "mgd_id"
    } else if k == RGD_ID {
        "rgd_id"
    } else if k == LSDB {
        "lsdb"
    } else if k == COSMIC {
        "cosmic"
    } else if k == OMIM_ID {
        "omim_id"
    } else if k == MIRBASE {
        "mirbase"
    } else if k == HOMEODB {
        "homeodb"
    } else if k == SNORNABASE {
        "snornabase"
    } else if k == BIOPARADIGMS_SLC {
        "bioparadigms_slc"
    } else if k == ORPHANET {
        "orphanet"
    } else if k == PSEUDOGENE_ORG {
        "pseudogene.org"
    } else if k == HORDE_ID {
        "horde_id"
    } else if k == MEROPS {
        "merops"
    } else if k == IMGT {
        "imgt"
    } else if k == IUPHAR {
        "iuphar"
    } else if k == KZNF_GENE_CATALOG {
        "kznf_gene_catalog"
    } else if k == MAMIT_TRNADB {
        "mamit-trnadb"
    } else if k == CD {
        "cd"
    } else if k == LNCRNADB {
        "lncrnadb"
    } else if k == ENZYME_ID {
        "enzyme_id"
    } else if k == INTERMEDIATE_FILAMENT_DB {
        "intermediate_filament_db"
    } else if k == RNA_CENTRAL_ID {
        "rna_central_id"
    } else if k == LNCIPEDIA {
        "lncipedia"
    } else if k == GTRNADB {
        "gtrnadb"
    } else if k == AGR {
        "agr"
    } else if k == MANE_SELECT {
        "mane_select"
    } else {
        "gencc"
    }
}

/// A gene record. Every column is held as text; a column the table lacks
/// is the empty string.
#[derive(Debug)]
pub struct HgncRecord {
    fields: Vec<String>,
}

impl View for HgncRecord {
    type V = Seq<Seq<char>>;

    closed spec fn view(&self) -> Seq<Seq<char>> {
        self.fields@.map_values(|x: String| x@)
    }
}

impl HgncRecord {
    pub open spec fn wf(&self) -> bool {
        self@.len() == NUM_COLUMNS
    }

    /// A record from its columns, in column order.
    pub fn from_fields(fields: Vec<String>) -> (r: Option<HgncRecord>)
        ensures
            match r {
                Some(rec) => fields@.len() == NUM_COLUMNS && rec.wf() && rec@ == fields@.map_values(
                    |x: String| x@,
                ),
                None => fields@.len() != NUM_COLUMNS,
            },
    {
        if fields.len() == NUM_COLUMNS {
            Some(HgncRecord { fields })
        } else {
            None
        }
    }

    pub(crate) fn from_columns(fields: Vec<String>) -> (r: HgncRecord)
        requires
            fields@.len() == NUM_COLUMNS,
        ensures
            r.wf(),
            r@ == fields@.map_values(|x: String| x@),
    {
        HgncRecord { fields }
    }

    /// The text of column `k`.
    pub fn field(&self, k: usize) -> (r: &str)
        requires
            self.wf(),
            k < NUM_COLUMNS,
        ensures
            r@ == self@[k as int],
    {
        self.fields[k].as_str()
    }

    /// All columns, in column order.
    pub fn fields(&self) -> (r: &Vec<String>)
        ensures
            r@.map_values(|x: String| x@) == self@,
    {
        &self.fields
    }

    /// The `hgnc_id` column.
    pub fn hgnc_id(&self) -> (r: &str)
        requires
            self.wf(),
        ensures
            r@ == self@[HGNC_ID as int],
    {
        self.fields[HGNC_ID].as_str()
    }

    /// The `symbol` column.
    pub fn symbol(&self) -> (r: &str)
        requires
            self.wf(),
        ensures
            r@ == self@[SYMBOL as int],
    {
        self.fields[SYMBOL].as_str()
    }

    /// The `name` column.
    pub fn name(&self) -> (r: &str)
        requires
            self.wf(),
        ensures
            r@ == self@[NAME as int],
    {
        self.fields[NAME].as_str()
    }

    /// The `locus_group` column.
    pub fn locus_group(&self) -> (r: &str)
        requires
            self.wf(),
        ensures
            r@ == self@[LOCUS_GROUP as int],
    {
        self.fields[LOCUS_GROUP].as_str()
    }

    /// The `locus_type` column.
    pub fn locus_type(&self) -> (r: &str)
        requires
            self.wf(),
        ensures
            r@ == self@[LOCUS_TYPE as int],
    {
        self.fields[LOCUS_TYPE].as_str()
    }

    /// The `status` column.
    pub fn status(&self) -> (r: &str)
        requires
            self.wf(),
        ensures
            r@ == self@[STATUS as int],
    {
        self.fields[STATUS].as_str()
    }

    /// The `location` column.
    pub fn location(&self) -> (r: &str)
        requires
            self.wf(),
        ensures
            r@ == self@[LOCATION as int],
    {
        self.fields[LOCATION].as_str()
    }

    /// The `location_sortable` column.
    pub fn location_sortable(&self) -> (r: &str)
        requires
            self.wf(),
        ensures
            r@ == self@[LOCATION_SORTABLE as int],
    {
        self.fields[LOCATION_SORTABLE].as_str()
    }

    /// The `alias_symbol` column.
    pub fn alias_symbol(&self) -> (r: &str)
        requires
            self.wf(),
        ensures
            r@ == self@[ALIAS_SYMBOL as int],
    {
        self.fields[ALIAS_SYMBOL].as_str()
    }

    /// The `alias_name` column.
    pub fn alias_name(&self) -> (r: &str)
        requires
            self.wf(),
        ensures
            r@ == self@[ALIAS_NAME as int],
    {
        self.fields[ALIAS_NAME].as_str()
    }

    /// The `prev_symbol` column.
    pub fn prev_symbol(&self) -> (r: &str)
        requires
            self.wf(),
        ensures
            r@ == self@[PREV_SYMBOL as int],
    {
        self.fields[PREV_SYMBOL].as_str()
    }

    /// The `prev_name` column.
    pub fn prev_name(&self) -> (r: &str)
        requires
            self.wf(),
        ensures
            r@ == self@[PREV_NAME as int],
    {
        self.fields[PREV_NAME].as_str()
    }

    /// The `gene_group` column.
    pub fn gene_group(&self) -> (r: &str)
        requires
            self.wf(),
        ensures
            r@ == self@[GENE_GROUP as int],
    {
        self.fields[GENE_GROUP].as_str()
    }

    /// The `gene_group_id` column.
    pub fn gene_group_id(&self) -> (r: &str)
        requires
            self.wf(),
        ensures
            r@ == self@[GENE_GROUP_ID as int],
    {
        self.fields[GENE_GROUP_ID].as_str()
    }

    /// The `date_approved_reserved` column.
    pub fn date_approved_reserved(&self) -> (r: &str)
        requires
            self.wf(),
        ensures
            r@ == self@[DATE_APPROVED_RESERVED as int],
    {
        self.fields[DATE_APPROVED_RESERVED].as_str()
    }

    /// The `date_symbol_changed` column.
    pub fn date_symbol_changed(&self) -> (r: &str)
        requires
            self.wf(),
        ensures
            r@ == self@[DATE_SYMBOL_CHANGED as int],
    {
        self.fields[DATE_SYMBOL_CHANGED].as_str()
    }

    /// The `date_name_changed` column.
    pub fn date_name_changed(&self) -> (r: &str)
        requires
            self.wf(),
        ensures
            r@ == self@[DATE_NAME_CHANGED as int],
    {
        self.fields[DATE_NAME_CHANGED].as_str()
    }

    /// The `date_modified` column.
    pub fn date_modified(&self) -> (r: &str)
        requires
            self.wf(),
        ensures
            r@ == self@[DATE_MODIFIED as int],
    {
        self.fields[DATE_MODIFIED].as_str()
    }

    /// The `entrez_id` column.
    pub fn entrez_id(&self) -> (r: &str)
        requires
            self.wf(),
        ensures
            r@ == self@[ENTREZ_ID as int],
    {
        self.fields[ENTREZ_ID].as_str()
    }

    /// The `ensembl_gene_id` column.
    pub fn ensembl_gene_id(&self) -> (r: &str)
        requires
            self.wf(),
        ensures
            r@ == self@[ENSEMBL_GENE_ID as int],
    {
        self.fields[ENSEMBL_GENE_ID].as_str()
    }

    /// The `vega_id` column.
    pub fn vega_id(&self) -> (r: &str)
        requires
            self.wf(),
        ensures
            r@ == self@[VEGA_ID as int],
    {
        self.fields[VEGA_ID].as_str()
    }

    /// The `ucsc_id` column.
    pub fn ucsc_id(&self) -> (r: &str)
        requires
            self.wf(),
        ensures
            r@ == self@[UCSC_ID as int],
    {
        self.fields[UCSC_ID].as_str()
    }

    /// The `ena` column.
    pub fn ena(&self) -> (r: &str)
        requires
            self.wf(),
        ensures
            r@ == self@[ENA as int],
    {
        self.fields[ENA].as_str()
    }

    /// The `refseq_accession` column.
    pub fn refseq_accession(&self) -> (r: &str)
        requires
            self.wf(),
        ensures
            r@ == self@[REFSEQ_ACCESSION as int],
    {
        self.fields[REFSEQ_ACCESSION].as_str()
    }

    /// The `ccds_id` column.
    pub fn ccds_id(&self) -> (r: &str)
        requires
            self.wf(),
        ensures
            r@ == self@[CCDS_ID as int],
    {
        self.fields[CCDS_ID].as_str()
    }

    /// The `uniprot_ids` column.
    pub fn uniprot_ids(&self) -> (r: &str)
        requires
            self.wf(),
        ensures
            r@ == self@[UNIPROT_IDS as int],
    {
        self.fields[UNIPROT_IDS].as_str()
    }

    /// The `pubmed_id` column.
    pub fn pubmed_id(&self) -> (r: &str)
        requires
            self.wf(),
        ensures
            r@ == self@[PUBMED_ID as int],
    {
        self.fields[PUBMED_ID].as_str()
    }

    /// The `mgd_id` column.
    pub fn mgd_id(&self) -> (r: &str)
        requires
            self.wf(),
        ensures
            r@ == self@[MGD_ID as int],
    {
        self.fields[MGD_ID].as_str()
    }

    /// The `rgd_id` column.
    pub fn rgd_id(&self) -> (r: &str)
        requires
            self.wf(),
        ensures
            r@ == self@[RGD_ID as int],
    {
        self.fields[RGD_ID].as_str()
    }

    /// The `lsdb` column.
    pub fn lsdb(&self) -> (r: &str)
        requires
            self.wf(),
        ensures
            r@ == self@[LSDB as int],
    {
        self.fields[LSDB].as_str()
    }

    /// The `cosmic` column.
    pub fn cosmic(&self) -> (r: &str)
        requires
            self.wf(),
        ensures
            r@ == self@[COSMIC as int],
    {
        self.fields[COSMIC].as_str()
    }

    /// The `omim_id` column.
    pub fn omim_id(&self) -> (r: &str)
        requires
            self.wf(),
        ensures
            r@ == self@[OMIM_ID as int],
    {
        self.fields[OMIM_ID].as_str()
    }

    /// The `mirbase` column.
    pub fn mirbase(&self) -> (r: &str)
        requires
            self.wf(),
        ensures
            r@ == self@[MIRBASE as int],
    {
        self.fields[MIRBASE].as_str()
    }

    /// The `homeodb` column.
    pub fn homeodb(&self) -> (r: &str)
        requires
            self.wf(),
        ensures
            r@ == self@[HOMEODB as int],
    {
        self.fields[HOMEODB].as_str()
    }

    /// The `snornabase` column.
    pub fn snornabase(&self) -> (r: &str)
        requires
            self.wf(),
        ensures
            r@ == self@[SNORNABASE as int],
    {
        self.fields[SNORNABASE].as_str()
    }

    /// The `bioparadigms_slc` column.
    pub fn bioparadigms_slc(&self) -> (r: &str)
        requires
            self.wf(),
        ensures
            r@ == self@[BIOPARADIGMS_SLC as int],
    {
        self.fields[BIOPARADIGMS_SLC].as_str()
    }

    /// The `orphanet` column.
    pub fn orphanet(&self) -> (r: &str)
        requires
            self.wf(),
        ensures
            r@ == self@[ORPHANET as int],
    {
        self.fields[ORPHANET].as_str()
    }

    /// The `pseudogene.org` column.
    pub fn pseudogene_org(&self) -> (r: &str)
        requires
            self.wf(),
        ensures
            r@ == self@[PSEUDOGENE_ORG as int],
    {
        self.fields[PSEUDOGENE_ORG].as_str()
    }

    /// The `horde_id` column.
    pub fn horde_id(&self) -> (r: &str)
        requires
            self.wf(),
        ensures
            r@ == self@[HORDE_ID as int],
    {
        self.fields[HORDE_ID].as_str()
    }

    /// The `merops` column.
    pub fn merops(&self) -> (r: &str)
        requires
            self.wf(),
        ensures
            r@ == self@[MEROPS as int],
    {
        self.fields[MEROPS].as_str()
    }

    /// The `imgt` column.
    pub fn imgt(&self) -> (r: &str)
        requires
            self.wf(),
        ensures
            r@ == self@[IMGT as int],
    {
        self.fields[IMGT].as_str()
    }

    /// The `iuphar` column.
    pub fn iuphar(&self) -> (r: &str)
        requires
            self.wf(),
        ensures
            r@ == self@[IUPHAR as int],
    {
        self.fields[IUPHAR].as_str()
    }

    /// The `kznf_gene_catalog` column.
    pub fn kznf_gene_catalog(&self) -> (r: &str)
        requires
            self.wf(),
        ensures
            r@ == self@[KZNF_GENE_CATALOG as int],
    {
        self.fields[KZNF_GENE_CATALOG].as_str()
    }

    /// The `mamit-trnadb` column.
    pub fn mamit_trnadb(&self) -> (r: &str)
        requires
            self.wf(),
        ensures
            r@ == self@[MAMIT_TRNADB as int],
    {
        self.fields[MAMIT_TRNADB].as_str()
    }

    /// The `cd` column.
    pub fn cd(&self) -> (r: &str)
        requires
            self.wf(),
        ensures
            r@ == self@[CD as int],
    {
        self.fields[CD].as_str()
    }

    /// The `lncrnadb` column.
    pub fn lncrnadb(&self) -> (r: &str)
        requires
            self.wf(),
        ensures
            r@ == self@[LNCRNADB as int],
    {
        self.fields[LNCRNADB].as_str()
    }

    /// The `enzyme_id` column.
    pub fn enzyme_id(&self) -> (r: &str)
        requires
            self.wf(),
        ensures
            r@ == self@[ENZYME_ID as int],
    {
        self.fields[ENZYME_ID].as_str()
    }

    /// The `intermediate_filament_db` column.
    pub fn intermediate_filament_db(&self) -> (r: &str)
        requires
            self.wf(),
        ensures
            r@ == self@[INTERMEDIATE_FILAMENT_DB as int],
    {
        self.fields[INTERMEDIATE_FILAMENT_DB].as_str()
    }

    /// The `rna_central_id` column.
    pub fn rna_central_id(&self) -> (r: &str)
        requires
            self.wf(),
        ensures
            r@ == self@[RNA_CENTRAL_ID as int],
    {
        self.fields[RNA_CENTRAL_ID].as_str()
    }

    /// The `lncipedia` column.
    pub fn lncipedia(&self) -> (r: &str)
        requires
            self.wf(),
        ensures
            r@ == self@[LNCIPEDIA as int],
    {
        self.fields[LNCIPEDIA].as_str()
    }

    /// The `gtrnadb` column.
    pub fn gtrnadb(&self) -> (r: &str)
        requires
            self.wf(),
        ensures
            r@ == self@[GTRNADB as int],
    {
        self.fields[GTRNADB].as_str()
    }

    /// The `agr` column.
    pub fn agr(&self) -> (r: &str)
        requires
            self.wf(),
        ensures
            r@ == self@[AGR as int],
    {
        self.fields[AGR].as_str()
    }

    /// The `mane_select` column.
    pub fn mane_select(&self) -> (r: &str)
        requires
            self.wf(),
        ensures
            r@ == self@[MANE_SELECT as int],
    {
        self.fields[MANE_SELECT].as_str()
    }

    /// The `gencc` column.
    pub fn gencc(&self) -> (r: &str)
        requires
            self.wf(),
        ensures
            r@ == self@[GENCC as int],
    {
        self.fields[GENCC].as_str()
    }
}

} // verus!
