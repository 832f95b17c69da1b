//! Record schema for the downloaded data files.
//!
//! These types give shape to the documents the pipeline downloads: table
//! of contents, provider reference, and the common enumerations and
//! identifiers their records use.  The pipeline itself never looks inside
//! a downloaded file; a downstream record parser consumes these.

use vstd::prelude::*;

verus! {

/// Type of entity publishing a machine-readable file.
#[derive(Debug, Clone, PartialEq, Eq, Structural)]
pub enum EntityType {
    /// A group health plan
    GroupHealthPlan,
    /// A health insurance issuer
    HealthInsuranceIssuer,
    /// A third party contracted to provide the required information
    ThirdPartyAdministrator,
    /// A health care claims clearinghouse
    HealthcareClearinghouse,
    /// An insurance company
    Insurer,
    /// Any other entity type not explicitly listed
    Other,
}

/// Common billing code types used in healthcare.
#[derive(Debug, Clone, PartialEq, Eq, Structural)]
pub enum BillingCodeType {
    /// Current Procedural Terminology
    CPT,
    /// National Drug Code
    NDC,
    /// Healthcare Common Procedural Coding System
    HCPCS,
    /// Revenue Code
    RC,
    /// International Classification of Diseases
    ICD,
    /// Medicare Severity Diagnosis Related Groups
    MSDRG,
    /// Refined Diagnosis Related Groups
    RDRG,
    /// Severity Diagnosis Related Groups
    SDRG,
    /// All Patient, Severity-Adjusted Diagnosis Related Groups
    APSDRG,
    /// All Patient Diagnosis Related Groups
    APDRG,
    /// All Patient Refined Diagnosis Related Groups
    APRDRG,
    /// Ambulatory Payment Classifications
    APC,
    /// Local Code Processing
    LOCAL,
    /// Enhanced Ambulatory Patient Grouping
    EAPG,
    /// Health Insurance Prospective Payment System
    HIPPS,
    /// Current Dental Terminology
    CDT,
    /// All possible coding types under the contractual arrangement
    CSTMALL,
    /// Any other billing code type not explicitly listed
    Other,
}

/// Type of negotiated rate arrangement.
#[derive(Debug, Clone, PartialEq, Eq, Structural)]
pub enum NegotiatedType {
    /// A contractually agreed dollar amount
    Negotiated,
    /// A price assigned for internal accounting
    Derived,
    /// A fee-schedule rate used for cost-sharing liability
    FeeSchedule,
    /// A percentage of billed charges
    Percentage,
    /// A per diem daily rate
    PerDiem,
}

/// Billing class for services.
#[derive(Debug, Clone, PartialEq, Eq, Structural)]
pub enum BillingClass {
    /// Professional services
    Professional,
    /// Institutional services
    Institutional,
    /// Both professional and institutional
    Both,
}

/// Type of plan identifier.
#[derive(Debug, Clone, PartialEq, Eq, Structural)]
pub enum PlanIdType {
    /// Employer Identification Number
    Ein,
    /// Health Insurance Oversight System identifier
    Hios,
}

/// Market type for the health plan.
#[derive(Debug, Clone, PartialEq, Eq, Structural)]
pub enum MarketType {
    /// Group market
    Group,
    /// Individual market
    Individual,
}

/// Type of negotiation arrangement.
#[derive(Debug, Clone, PartialEq, Eq, Structural)]
pub enum NegotiationArrangement {
    /// Fee-for-service arrangement
    Ffs,
    /// Bundled payment arrangement
    Bundle,
    /// Capitation arrangement
    Capitation,
}

/// Type of tax identifier.
#[derive(Debug, Clone, PartialEq, Eq, Structural)]
pub enum TaxIdType {
    /// Employer Identification Number
    Ein,
    /// National Provider Identifier
    Npi,
}

/// Tax identification information for providers.
#[derive(Debug, Clone)]
pub struct TaxIdentifier {
    /// Type of tax identifier
    pub id_type: TaxIdType,
    /// The identifier value
    pub value: String,
}

/// NPIs and TIN for a group of providers.
#[derive(Debug, Clone)]
pub struct ProviderGroup {
    /// National Provider Identifiers, Type 1 and Type 2 mixed
    pub npi: Vec<i64>,
    /// Tax identification information for the provider group
    pub tin: TaxIdentifier,
}

/// The description and URL of one machine-readable file.
#[derive(Debug, Clone)]
pub struct FileLocation {
    /// Description of the file included
    pub description: String,
    /// A fully qualified URL where the file can be downloaded
    pub location: String,
}

/// Plan details for plans included in a reporting structure.
#[derive(Debug, Clone)]
pub struct ReportingPlan {
    /// The plan name and name of plan sponsor and/or insurance company
    pub plan_name: String,
    /// Type of plan identifier
    pub plan_id_type: PlanIdType,
    /// The HIOS identifier, or the EIN when none is available
    pub plan_id: String,
    /// Whether the plan is offered in the group or individual market
    pub plan_market_type: MarketType,
}

/// Maps associated plans to their in-network and allowed amount files.
#[derive(Debug, Clone)]
pub struct ReportingStructure {
    /// The plans associated with the files
    pub reporting_plans: Vec<ReportingPlan>,
    /// File locations for in-network files
    pub in_network_files: Option<Vec<FileLocation>>,
    /// The file location for the allowed amounts file
    pub allowed_amount_file: Option<FileLocation>,
}

/// Table of Contents file structure.
#[derive(Debug, Clone)]
pub struct TableOfContentsFile {
    /// The legal name of the publishing entity
    pub reporting_entity_name: String,
    /// The type of the publishing entity
    pub reporting_entity_type: EntityType,
    /// The reporting structures that map plans to their files
    pub reporting_structure: Vec<ReportingStructure>,
    /// The version of the schema for the produced information
    pub version: Option<String>,
}

/// Provider Reference file structure, used to deduplicate provider
/// information across files.
#[derive(Debug, Clone)]
pub struct ProviderReferenceFile {
    /// Provider groups with their NPIs and TINs
    pub provider_groups: Vec<ProviderGroup>,
    /// The version of the schema for the produced information
    pub version: String,
}

/// A reference to provider groups defined elsewhere.
#[derive(Debug, Clone)]
pub struct ProviderReference {
    /// Unique primary key for the associated provider group
    pub provider_group_id: i32,
    /// Provider groups, mutually exclusive with `location`
    pub provider_groups: Option<Vec<ProviderGroup>>,
    /// URL where provider group data can be downloaded,
    /// mutually exclusive with `provider_groups`
    pub location: Option<String>,
}

/// A code that is part of a bundle arrangement.
#[derive(Debug, Clone)]
pub struct BundledCode {
    /// Common billing code type
    pub billing_code_type: BillingCodeType,
    /// Version of the billing code type
    pub billing_code_type_version: String,
    /// The billing code
    pub billing_code: String,
    /// Brief description of the item or service
    pub description: String,
}

/// A service covered under a capitation arrangement.
#[derive(Debug, Clone)]
pub struct CoveredService {
    /// Common billing code type
    pub billing_code_type: BillingCodeType,
    /// Version of the billing code type
    pub billing_code_type_version: String,
    /// The billing code
    pub billing_code: String,
    /// Brief description of the item or service
    pub description: String,
}

/// Statistics tracked while processing machine-readable files.
#[derive(Debug)]
pub struct ProcessingStats {
    /// Total number of records processed
    pub total_records: usize,
    /// Number of in-network rates processed
    pub in_network_rates: usize,
    /// Number of out-of-network rates processed
    pub out_of_network_rates: usize,
    /// Number of providers processed
    pub providers_processed: usize,
    /// Number of errors encountered during processing
    pub errors_encountered: usize,
    /// Total processing time in seconds
    pub processing_time_secs: u64,
    /// Size of the processed file in bytes
    pub file_size_bytes: u64,
}

impl Default for ProcessingStats {
    /// Fresh statistics: every count and measure at zero.
    fn default() -> (r: Self)
        ensures
            r.total_records == 0,
            r.in_network_rates == 0,
            r.out_of_network_rates == 0,
            r.providers_processed == 0,
            r.errors_encountered == 0,
            r.processing_time_secs == 0,
            r.file_size_bytes == 0,
    {
        ProcessingStats {
            total_records: 0,
            in_network_rates: 0,
            out_of_network_rates: 0,
            providers_processed: 0,
            errors_encountered: 0,
            processing_time_secs: 0,
            file_size_bytes: 0,
        }
    }
}

} // verus!
