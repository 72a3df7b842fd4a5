//! Sales Navigator search filters.
use vstd::prelude::*;

verus! {

/// Job functions a Sales Navigator search can filter on.
pub enum String {
    Accounting,
    Administrative,
    ArtsAndDesign,
    BusinessDevelopment,
    CommunityAndSocialServices,
    Consulting,
    Education,
    Engineering,
    Entrepreneurship,
    Finance,
    HealthServices,
    HumanResources,
    InformationTechnology,
    Legal,
    Marketing,
    MediaAndCommunications,
    Operations,
    ProductManagement,
    ProgramAndProjectManagement,
    Purchasing,
    QualityAssurance,
    RealEstate,
    Research,
    Sales,
    CustomerSuccessAndSupport,
}

/// The label of a job function, as typed into the filter.
pub open spec fn function_text(f: String) -> Seq<char> {
    match f {
        String::Accounting => "Accounting"@,
        String::Administrative => "Administrative"@,
        String::ArtsAndDesign => "Arts and Design"@,
        String::BusinessDevelopment => "Business Development"@,
        String::CommunityAndSocialServices => "Community and Social Services"@,
        String::Consulting => "Consulting"@,
        String::Education => "Education"@,
        String::Engineering => "Engineering"@,
        String::Entrepreneurship => "Entrepreneurship"@,
        String::Finance => "Finance"@,
        String::HealthServices => "Health Services"@,
        String::HumanResources => "Human Resources"@,
        String::InformationTechnology => "Information Technology"@,
        String::Legal => "Legal"@,
        String::Marketing => "Marketing"@,
        String::MediaAndCommunications => "Media and Communications"@,
        String::Operations => "Operations"@,
        String::ProductManagement => "Product Management"@,
        String::ProgramAndProjectManagement => "Program and Project Management"@,
        String::Purchasing => "Purchasing"@,
        String::QualityAssurance => "Quality Assurance"@,
        String::RealEstate => "Real Estate"@,
        String::Research => "Research"@,
        String::Sales => "Sales"@,
        String::CustomerSuccessAndSupport => "Customer Success and Support"@,
    }
}

impl String {
    /// The label of the job function, as typed into the filter.
    pub fn label(&self) -> (res: &'static str)
        ensures
            res@ == function_text(*self),
    {
        match self {
            String::Accounting => "Accounting",
            String::Administrative => "Administrative",
            String::ArtsAndDesign => "Arts and Design",
            String::BusinessDevelopment => "Business Development",
            String::CommunityAndSocialServices => "Community and Social Services",
            String::Consulting => "Consulting",
            String::Education => "Education",
            String::Engineering => "Engineering",
            String::Entrepreneurship => "Entrepreneurship",
            String::Finance => "Finance",
            String::HealthServices => "Health Services",
            String::HumanResources => "Human Resources",
            String::InformationTechnology => "Information Technology",
            String::Legal => "Legal",
            String::Marketing => "Marketing",
            String::MediaAndCommunications => "Media and Communications",
            String::Operations => "Operations",
            String::ProductManagement => "Product Management",
            String::ProgramAndProjectManagement => "Program and Project Management",
            String::Purchasing => "Purchasing",
            String::QualityAssurance => "Quality Assurance",
            String::RealEstate => "Real Estate",
            String::Research => "Research",
            String::Sales => "Sales",
            String::CustomerSuccessAndSupport => "Customer Success and Support",
        }
    }
}

/// Seniority levels a Sales Navigator search can filter on.
pub enum SeniorityLevel {
    Owner,
    CXO,
    VicePresident,
    Director,
    ExperienceManager,
    EntryLevelManager,
    Strategic,
    Senior,
    EntryLevel,
    InTraining,
}

pub open spec fn seniority_text(s: SeniorityLevel) -> Seq<char> {
    match s {
        SeniorityLevel::Owner => "Owner"@,
        SeniorityLevel::CXO => "CXO"@,
        SeniorityLevel::VicePresident => "Vice President"@,
        SeniorityLevel::Director => "Director"@,
        SeniorityLevel::ExperienceManager => "Experience Manager"@,
        SeniorityLevel::EntryLevelManager => "Entry Level Manager"@,
        SeniorityLevel::Strategic => "Strategic"@,
        SeniorityLevel::Senior => "Senior"@,
        SeniorityLevel::EntryLevel => "Entry Level"@,
        SeniorityLevel::InTraining => "In Training"@,
    }
}

impl SeniorityLevel {
    /// The label of the seniority level, as shown in the filter.
    pub fn label(&self) -> (res: &'static str)
        ensures
            res@ == seniority_text(*self),
    {
        match self {
            SeniorityLevel::Owner => "Owner",
            SeniorityLevel::CXO => "CXO",
            SeniorityLevel::VicePresident => "Vice President",
            SeniorityLevel::Director => "Director",
            SeniorityLevel::ExperienceManager => "Experience Manager",
            SeniorityLevel::EntryLevelManager => "Entry Level Manager",
            SeniorityLevel::Strategic => "Strategic",
            SeniorityLevel::Senior => "Senior",
            SeniorityLevel::EntryLevel => "Entry Level",
            SeniorityLevel::InTraining => "In Training",
        }
    }
}

} // verus!
