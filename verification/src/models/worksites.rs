//! Worksites: the survey document of a worksite, the record that carries it,
//! and the inputs from which both are made.

use vstd::prelude::*;
use vstd::std_specs::convert::FromSpecImpl;
use crate::models::clients::list_view;
use crate::timestamp::{text_of, Timestamp};

verus! {

/// How a worksite is identified in the files of the business.
#[derive(Clone, Debug, PartialEq, Eq)]
pub struct WorksiteInformation {
    pub folder_number: String,
}

/// The identification of a worksite as the interface receives it.
#[derive(Clone, Debug, PartialEq, Eq)]
pub struct CreateWorksiteInformation {
    pub folder_number: String,
}

/// What the identification of a worksite holds.
pub struct WorksiteInformationView {
    pub folder_number: Seq<char>,
}

impl View for WorksiteInformation {
    type V = WorksiteInformationView;

    open spec fn view(&self) -> WorksiteInformationView {
        WorksiteInformationView {
            folder_number: self.folder_number@,
        }
    }
}

impl View for CreateWorksiteInformation {
    type V = WorksiteInformationView;

    open spec fn view(&self) -> WorksiteInformationView {
        WorksiteInformationView {
            folder_number: self.folder_number@,
        }
    }
}

impl WorksiteInformation {
    pub fn folder_number(&self) -> (number: &str)
        ensures
            number@ == self.folder_number@,
    {
        self.folder_number.as_str()
    }
}

impl From<CreateWorksiteInformation> for WorksiteInformation {
    /// Takes the identification over field by field.
    fn from(f: CreateWorksiteInformation) -> (out: WorksiteInformation)
        ensures
            out@ == f@,
    {
        WorksiteInformation {
            folder_number: f.folder_number,
        }
    }
}

impl FromSpecImpl<CreateWorksiteInformation> for WorksiteInformation {
    open spec fn obeys_from_spec() -> bool {
        true
    }

    open spec fn from_spec(f: CreateWorksiteInformation) -> WorksiteInformation {
        WorksiteInformation {
            folder_number: f.folder_number,
        }
    }
}

/// One entry of an asbestos survey: what was sampled where, and what was
/// found.
#[derive(Clone, Debug, PartialEq, Eq)]
pub struct Asbestos {
    pub unit: i32,
    pub area: String,
    pub equipments: String,
    pub localization: String,
    pub surveyed_element: String,
    pub materials_description: String,
    pub sampling: String,
    pub date_of_sampling: String,
    pub fcr_result: String,
    pub conservation_state: String,
    pub equipment_volume: String,
    pub material_volume: String,
    pub picture_id: i32,
}

/// An entry of an asbestos survey as the interface receives it.
#[derive(Clone, Debug, PartialEq, Eq)]
pub struct CreateAsbestos {
    pub unit: i32,
    pub area: String,
    pub equipments: String,
    pub localization: String,
    pub surveyed_element: String,
    pub materials_description: String,
    pub sampling: String,
    pub date_of_sampling: String,
    pub fcr_result: String,
    pub conservation_state: String,
    pub equipment_volume: String,
    pub material_volume: String,
    pub picture_id: i32,
}

/// What an entry of an asbestos survey holds.
pub struct AsbestosView {
    pub unit: int,
    pub area: Seq<char>,
    pub equipments: Seq<char>,
    pub localization: Seq<char>,
    pub surveyed_element: Seq<char>,
    pub materials_description: Seq<char>,
    pub sampling: Seq<char>,
    pub date_of_sampling: Seq<char>,
    pub fcr_result: Seq<char>,
    pub conservation_state: Seq<char>,
    pub equipment_volume: Seq<char>,
    pub material_volume: Seq<char>,
    pub picture_id: int,
}

impl View for Asbestos {
    type V = AsbestosView;

    open spec fn view(&self) -> AsbestosView {
        AsbestosView {
            unit: self.unit as int,
            area: self.area@,
            equipments: self.equipments@,
            localization: self.localization@,
            surveyed_element: self.surveyed_element@,
            materials_description: self.materials_description@,
            sampling: self.sampling@,
            date_of_sampling: self.date_of_sampling@,
            fcr_result: self.fcr_result@,
            conservation_state: self.conservation_state@,
            equipment_volume: self.equipment_volume@,
            material_volume: self.material_volume@,
            picture_id: self.picture_id as int,
        }
    }
}

impl View for CreateAsbestos {
    type V = AsbestosView;

    open spec fn view(&self) -> AsbestosView {
        AsbestosView {
            unit: self.unit as int,
            area: self.area@,
            equipments: self.equipments@,
            localization: self.localization@,
            surveyed_element: self.surveyed_element@,
            materials_description: self.materials_description@,
            sampling: self.sampling@,
            date_of_sampling: self.date_of_sampling@,
            fcr_result: self.fcr_result@,
            conservation_state: self.conservation_state@,
            equipment_volume: self.equipment_volume@,
            material_volume: self.material_volume@,
            picture_id: self.picture_id as int,
        }
    }
}

impl From<CreateAsbestos> for Asbestos {
    /// Takes the entry over field by field.
    fn from(f: CreateAsbestos) -> (out: Asbestos)
        ensures
            out@ == f@,
    {
        Asbestos {
            unit: f.unit,
            area: f.area,
            equipments: f.equipments,
            localization: f.localization,
            surveyed_element: f.surveyed_element,
            materials_description: f.materials_description,
            sampling: f.sampling,
            date_of_sampling: f.date_of_sampling,
            fcr_result: f.fcr_result,
            conservation_state: f.conservation_state,
            equipment_volume: f.equipment_volume,
            material_volume: f.material_volume,
            picture_id: f.picture_id,
        }
    }
}

impl FromSpecImpl<CreateAsbestos> for Asbestos {
    open spec fn obeys_from_spec() -> bool {
        true
    }

    open spec fn from_spec(f: CreateAsbestos) -> Asbestos {
        Asbestos {
            unit: f.unit,
            area: f.area,
            equipments: f.equipments,
            localization: f.localization,
            surveyed_element: f.surveyed_element,
            materials_description: f.materials_description,
            sampling: f.sampling,
            date_of_sampling: f.date_of_sampling,
            fcr_result: f.fcr_result,
            conservation_state: f.conservation_state,
            equipment_volume: f.equipment_volume,
            material_volume: f.material_volume,
            picture_id: f.picture_id,
        }
    }
}

/// One lead measurement: where it was taken, the value measured, its
/// uncertainty and the verdict.
#[derive(Clone, Debug, PartialEq, Eq)]
pub struct Lead {
    pub number: i32,
    pub localization: String,
    pub area: String,
    pub number_ud: i32,
    pub diagnostic_unity: String,
    pub substrate: String,
    pub exposed_coating: String,
    pub measure_localization: String,
    pub measure: i32,
    pub incertitude: i32,
    pub result: String,
}

/// A lead measurement as the interface receives it.
#[derive(Clone, Debug, PartialEq, Eq)]
pub struct CreateLead {
    pub number: i32,
    pub localization: String,
    pub area: String,
    pub number_ud: i32,
    pub diagnostic_unity: String,
    pub substrate: String,
    pub exposed_coating: String,
    pub measure_localization: String,
    pub measure: i32,
    pub incertitude: i32,
    pub result: String,
}

/// What a lead measurement holds.
pub struct LeadView {
    pub number: int,
    pub localization: Seq<char>,
    pub area: Seq<char>,
    pub number_ud: int,
    pub diagnostic_unity: Seq<char>,
    pub substrate: Seq<char>,
    pub exposed_coating: Seq<char>,
    pub measure_localization: Seq<char>,
    pub measure: int,
    pub incertitude: int,
    pub result: Seq<char>,
}

impl View for Lead {
    type V = LeadView;

    open spec fn view(&self) -> LeadView {
        LeadView {
            number: self.number as int,
            localization: self.localization@,
            area: self.area@,
            number_ud: self.number_ud as int,
            diagnostic_unity: self.diagnostic_unity@,
            substrate: self.substrate@,
            exposed_coating: self.exposed_coating@,
            measure_localization: self.measure_localization@,
            measure: self.measure as int,
            incertitude: self.incertitude as int,
            result: self.result@,
        }
    }
}

impl View for CreateLead {
    type V = LeadView;

    open spec fn view(&self) -> LeadView {
        LeadView {
            number: self.number as int,
            localization: self.localization@,
            area: self.area@,
            number_ud: self.number_ud as int,
            diagnostic_unity: self.diagnostic_unity@,
            substrate: self.substrate@,
            exposed_coating: self.exposed_coating@,
            measure_localization: self.measure_localization@,
            measure: self.measure as int,
            incertitude: self.incertitude as int,
            result: self.result@,
        }
    }
}

impl From<CreateLead> for Lead {
    /// Takes the measurement over field by field.
    fn from(f: CreateLead) -> (out: Lead)
        ensures
            out@ == f@,
    {
        Lead {
            number: f.number,
            localization: f.localization,
            area: f.area,
            number_ud: f.number_ud,
            diagnostic_unity: f.diagnostic_unity,
            substrate: f.substrate,
            exposed_coating: f.exposed_coating,
            measure_localization: f.measure_localization,
            measure: f.measure,
            incertitude: f.incertitude,
            result: f.result,
        }
    }
}

impl FromSpecImpl<CreateLead> for Lead {
    open spec fn obeys_from_spec() -> bool {
        true
    }

    open spec fn from_spec(f: CreateLead) -> Lead {
        Lead {
            number: f.number,
            localization: f.localization,
            area: f.area,
            number_ud: f.number_ud,
            diagnostic_unity: f.diagnostic_unity,
            substrate: f.substrate,
            exposed_coating: f.exposed_coating,
            measure_localization: f.measure_localization,
            measure: f.measure,
            incertitude: f.incertitude,
            result: f.result,
        }
    }
}

/// The survey document of a worksite. Each of its three sections may be
/// absent.
#[derive(Clone, Debug, PartialEq, Eq)]
pub struct WorksiteContent {
    pub worksite_information: Option<WorksiteInformation>,
    pub leads: Option<Vec<Lead>>,
    pub asbestos: Option<Vec<Asbestos>>,
}

/// The survey document of a worksite as the interface receives it.
#[derive(Clone, Debug, PartialEq, Eq)]
pub struct CreateWorksiteContent {
    pub worksite_information: Option<CreateWorksiteInformation>,
    pub leads: Option<Vec<CreateLead>>,
    pub asbestos: Option<Vec<CreateAsbestos>>,
}

/// What a survey document holds.
pub struct WorksiteContentView {
    pub worksite_information: Option<WorksiteInformationView>,
    pub leads: Option<Seq<LeadView>>,
    pub asbestos: Option<Seq<AsbestosView>>,
}

impl View for WorksiteContent {
    type V = WorksiteContentView;

    open spec fn view(&self) -> WorksiteContentView {
        WorksiteContentView {
            worksite_information: match self.worksite_information {
                Some(information) => Some(information@),
                None => None,
            },
            leads: list_view(self.leads),
            asbestos: list_view(self.asbestos),
        }
    }
}

impl View for CreateWorksiteContent {
    type V = WorksiteContentView;

    open spec fn view(&self) -> WorksiteContentView {
        WorksiteContentView {
            worksite_information: match self.worksite_information {
                Some(information) => Some(information@),
                None => None,
            },
            leads: list_view(self.leads),
            asbestos: list_view(self.asbestos),
        }
    }
}

impl WorksiteContent {
    pub fn worksite_information(&self) -> (information: Option<&WorksiteInformation>)
        ensures
            match information {
                Some(held) => self.worksite_information == Some(*held),
                None => self.worksite_information.is_none(),
            },
    {
        self.worksite_information.as_ref()
    }

    pub fn leads(&self) -> (leads: Option<&Vec<Lead>>)
        ensures
            match leads {
                Some(held) => self.leads == Some(*held),
                None => self.leads.is_none(),
            },
    {
        self.leads.as_ref()
    }

    pub fn asbestos(&self) -> (asbestos: Option<&Vec<Asbestos>>)
        ensures
            match asbestos {
                Some(held) => self.asbestos == Some(*held),
                None => self.asbestos.is_none(),
            },
    {
        self.asbestos.as_ref()
    }
}

/// Takes a list of lead measurements over, one by one and in their order.
fn leads_from(list: Vec<CreateLead>) -> (out: Vec<Lead>)
    ensures
        list_view(Some(out)) == list_view(Some(list)),
{
    let ghost given = list@;
    let mut out: Vec<Lead> = Vec::new();
    for item in it: list
        invariant
            it.seq() == given,
            out@.len() == it.index(),
            forall|j: int| 0 <= j < out@.len() ==> (#[trigger] out@[j])@ == given[j]@,
    {
        out.push(Lead::from(item));
    }
    assert(out@.map_values(|item: Lead| item@) =~= given.map_values(|item: CreateLead| item@));
    out
}

/// Takes a list of asbestos entries over, one by one and in their order.
fn asbestos_from(list: Vec<CreateAsbestos>) -> (out: Vec<Asbestos>)
    ensures
        list_view(Some(out)) == list_view(Some(list)),
{
    let ghost given = list@;
    let mut out: Vec<Asbestos> = Vec::new();
    for item in it: list
        invariant
            it.seq() == given,
            out@.len() == it.index(),
            forall|j: int| 0 <= j < out@.len() ==> (#[trigger] out@[j])@ == given[j]@,
    {
        out.push(Asbestos::from(item));
    }
    assert(out@.map_values(|item: Asbestos| item@) =~= given.map_values(
        |item: CreateAsbestos| item@,
    ));
    out
}

impl From<CreateWorksiteContent> for WorksiteContent {
    /// Takes the document over section by section: what is absent stays
    /// absent, what is there keeps its entries, their order and every field.
    fn from(f: CreateWorksiteContent) -> (out: WorksiteContent)
        ensures
            out@ == f@,
    {
        WorksiteContent {
            worksite_information: match f.worksite_information {
                Some(information) => Some(WorksiteInformation::from(information)),
                None => None,
            },
            leads: match f.leads {
                Some(list) => Some(leads_from(list)),
                None => None,
            },
            asbestos: match f.asbestos {
                Some(list) => Some(asbestos_from(list)),
                None => None,
            },
        }
    }
}

impl FromSpecImpl<CreateWorksiteContent> for WorksiteContent {
    /// The lists are built anew, so the result is stated by what it holds
    /// (see `from`) and not as one value.
    open spec fn obeys_from_spec() -> bool {
        false
    }

    open spec fn from_spec(f: CreateWorksiteContent) -> WorksiteContent {
        choose|out: WorksiteContent| out@ == f@
    }
}

/// A worksite as the store holds it. `deleted_at` marks a worksite as
/// deleted without removing it.
#[derive(Clone, Debug, PartialEq, Eq)]
pub struct Worksite {
    pub id: i32,
    pub client_id: i32,
    pub worksite: WorksiteContent,
    pub created_at: Timestamp,
    pub edited_at: Timestamp,
    pub deleted_at: Option<Timestamp>,
}

/// What a worksite record holds.
pub struct WorksiteView {
    pub id: int,
    pub client_id: int,
    pub worksite: WorksiteContentView,
    pub created_at: Timestamp,
    pub edited_at: Timestamp,
    pub deleted_at: Option<Timestamp>,
}

impl View for Worksite {
    type V = WorksiteView;

    open spec fn view(&self) -> WorksiteView {
        WorksiteView {
            id: self.id as int,
            client_id: self.client_id as int,
            worksite: self.worksite@,
            created_at: self.created_at,
            edited_at: self.edited_at,
            deleted_at: self.deleted_at,
        }
    }
}

impl Worksite {
    pub fn id(&self) -> (id: i32)
        ensures
            id == self.id,
    {
        self.id
    }

    pub fn client_id(&self) -> (id: i32)
        ensures
            id == self.client_id,
    {
        self.client_id
    }

    pub fn worksite(&self) -> (content: &WorksiteContent)
        ensures
            content == self.worksite,
    {
        &self.worksite
    }

    /// When the worksite was created, as the interface shows it.
    pub fn created_at(&self) -> (text: String)
        ensures
            text@ == self.created_at.display_text(),
    {
        self.created_at.display()
    }

    /// When the worksite was last edited, as the interface shows it.
    pub fn edited_at(&self) -> (text: String)
        ensures
            text@ == self.edited_at.display_text(),
    {
        self.edited_at.display()
    }

    /// When the worksite was marked as deleted, as the interface shows it:
    /// a text exactly for a worksite that is deleted, and then the text of
    /// the moment of deletion.
    pub fn deleted_at(&self) -> (text: Option<String>)
        ensures
            text_of(text) == match self.deleted_at {
                Some(moment) => Some(moment.display_text()),
                None => None,
            },
    {
        match self.deleted_at {
            Some(moment) => Some(moment.display()),
            None => None,
        }
    }
}

/// A worksite that is about to be stored: everything but the id, and not
/// deleted.
#[derive(Clone, Debug, PartialEq, Eq)]
pub struct NewWorksite {
    pub client_id: i32,
    pub worksite: WorksiteContent,
    pub created_at: Timestamp,
    pub edited_at: Timestamp,
}

/// What a worksite that is about to be stored holds.
pub struct NewWorksiteView {
    pub client_id: int,
    pub worksite: WorksiteContentView,
    pub created_at: Timestamp,
    pub edited_at: Timestamp,
}

impl View for NewWorksite {
    type V = NewWorksiteView;

    open spec fn view(&self) -> NewWorksiteView {
        NewWorksiteView {
            client_id: self.client_id as int,
            worksite: self.worksite@,
            created_at: self.created_at,
            edited_at: self.edited_at,
        }
    }
}

impl NewWorksiteView {
    /// The record that the store holds once it has inserted this row under
    /// the id `id`.
    pub open spec fn stored(self, id: int) -> WorksiteView {
        WorksiteView {
            id,
            client_id: self.client_id,
            worksite: self.worksite,
            created_at: self.created_at,
            edited_at: self.edited_at,
            deleted_at: None,
        }
    }
}

/// What the interface receives to create a worksite. The survey document is
/// required though the input type leaves it open.
#[derive(Clone, Debug, PartialEq, Eq)]
pub struct CreateNewWorksite {
    pub client_id: i32,
    pub worksite: Option<CreateWorksiteContent>,
}

/// What a worksite input holds.
pub struct CreateNewWorksiteView {
    pub client_id: int,
    pub worksite: Option<WorksiteContentView>,
}

impl View for CreateNewWorksite {
    type V = CreateNewWorksiteView;

    open spec fn view(&self) -> CreateNewWorksiteView {
        CreateNewWorksiteView {
            client_id: self.client_id as int,
            worksite: match self.worksite {
                Some(content) => Some(content@),
                None => None,
            },
        }
    }
}

} // verus!
