//! The operations on contents. Contents have no anchor: the section anchor
//! links directly to each current content record, and contents are
//! addressed — and updated — by record address.

use vstd::prelude::*;

use crate::content::entry::Content;
use crate::content::entry::ContentV;
use crate::content::validation;
use crate::error::ApiError;
use crate::section;
use crate::section::entry::SectionV;
use crate::store::has_room;
use crate::store::Address;
use crate::store::Link;
use crate::store::LinkKind;
use crate::store::Record;
use crate::store::RecordV;
use crate::store::Store;
use crate::store::StoreV;

verus! {

/// The store and result of creating a content under the section at
/// `section_anchor_address`, signed by `agent`.
///
/// The parent section must resolve to a current record — a deleted
/// section accepts no new contents — and the new content inherits the
/// section's teacher. The record is committed and the section anchor is
/// linked to it.
pub open spec fn create_spec(
    s: StoreV,
    agent: Address,
    name: Seq<char>,
    section_anchor_address: Address,
    url: Seq<char>,
    timestamp: u64,
    description: Seq<char>,
) -> (StoreV, Result<Address, ApiError>) {
    match section::handlers::latest_section(s, section_anchor_address) {
        Err(e) => (s, Err(e)),
        Ok(opt) => match opt {
            None => (s, Err(ApiError::ParentDeleted)),
            Some((current_section, _)) => {
                let content = ContentV {
                    name,
                    url,
                    description,
                    timestamp,
                    section_anchor_address,
                    teacher_address: current_section.teacher_address,
                };
                match validation::create_spec(content, seq![agent]) {
                    Err(e) => (s, Err(e)),
                    Ok(_) => {
                        let s1 = s.put(RecordV::Content(content));
                        let new_content_address = s.put_addr(RecordV::Content(content));
                        let s2 = s1.add_link(
                            Link {
                                base: section_anchor_address,
                                target: new_content_address,
                                kind: LinkKind::SectionToContent,
                            },
                        );
                        (s2, Ok(new_content_address))
                    },
                }
            },
        },
    }
}

/// Creates a content under a section. Fails when the section no longer
/// has a current record, or when the acting agent is not the owning
/// teacher. Returns the address of the new content record.
pub fn create(
    store: &mut Store,
    acting_agent: Address,
    name: String,
    section_anchor_address: Address,
    url: String,
    timestamp: u64,
    description: String,
) -> (r: Result<Address, ApiError>)
    requires
        has_room(old(store)@, 1),
    ensures
        final(store)@ == create_spec(
            old(store)@,
            acting_agent,
            name@,
            section_anchor_address,
            url@,
            timestamp,
            description@,
        ).0,
        r == create_spec(
            old(store)@,
            acting_agent,
            name@,
            section_anchor_address,
            url@,
            timestamp,
            description@,
        ).1,
        section::handlers::latest_section(old(store)@, section_anchor_address) == Ok::<
            Option<(SectionV, Address)>,
            ApiError,
        >(None) ==> r == Err::<Address, ApiError>(ApiError::ParentDeleted) && final(store)@ == old(
            store,
        )@,
        (section::handlers::latest_section(old(store)@, section_anchor_address) matches Ok(
            Some((sec, _)),
        ) && acting_agent != sec.teacher_address) ==> r == Err::<Address, ApiError>(
            ApiError::Unauthorized,
        ) && final(store)@ == old(store)@,
        (section::handlers::latest_section(old(store)@, section_anchor_address) matches Ok(
            Some((sec, _)),
        ) && acting_agent == sec.teacher_address) ==> r is Ok,
{
    proof {
        assert(seq![acting_agent][0] == acting_agent);
    }
    let latest_section_result = section::handlers::get_latest_section(
        store,
        &section_anchor_address,
    )?;
    match latest_section_result {
        Some((current_section, _current_section_address)) => {
            let new_content = Content::new(
                name,
                section_anchor_address,
                url,
                timestamp,
                description,
                current_section.teacher_address,
            );
            let mut sources: Vec<Address> = Vec::new();
            sources.push(acting_agent);
            proof {
                assert(sources@ =~= seq![acting_agent]);
            }
            validation::create(&new_content, &sources)?;
            let new_content_address = store.put(Record::Content(new_content));
            store.put_link(section_anchor_address, new_content_address, LinkKind::SectionToContent);
            Ok(new_content_address)
        },
        None => Err(ApiError::ParentDeleted),
    }
}

/// Lists the addresses of the contents linked from the section anchor.
pub fn get_contents(store: &Store, section_anchor_address: &Address) -> (r: Result<
    Vec<Address>,
    ApiError,
>)
    ensures
        r matches Ok(v) && v@ == store@.link_targets(
            *section_anchor_address,
            LinkKind::SectionToContent,
        ),
{
    Ok(store.get_links(*section_anchor_address, LinkKind::SectionToContent))
}

/// The store and result of updating the content at `content_address`,
/// signed by `agent`. The new record carries the owning section and the
/// teacher forward unchanged; the section's link is repointed from the
/// old record to the new one, whose address is returned.
pub open spec fn update_spec(
    s: StoreV,
    agent: Address,
    content_address: Address,
    name: Seq<char>,
    url: Seq<char>,
    description: Seq<char>,
    timestamp: u64,
) -> (StoreV, Result<Address, ApiError>) {
    match s.get(content_address) {
        Some(RecordV::Content(content)) => {
            let new_content = ContentV {
                name,
                url,
                description,
                timestamp,
                section_anchor_address: content.section_anchor_address,
                teacher_address: content.teacher_address,
            };
            match validation::modify_spec(new_content, content, seq![agent]) {
                Err(e) => (s, Err(e)),
                Ok(_) => {
                    let s1 = s.put(RecordV::Content(new_content));
                    let updated_content_address = s.put_addr(RecordV::Content(new_content));
                    let s2 = s1.remove_link(
                        Link {
                            base: content.section_anchor_address,
                            target: content_address,
                            kind: LinkKind::SectionToContent,
                        },
                    );
                    let s3 = s2.add_link(
                        Link {
                            base: content.section_anchor_address,
                            target: updated_content_address,
                            kind: LinkKind::SectionToContent,
                        },
                    );
                    (s3, Ok(updated_content_address))
                },
            }
        },
        _ => (s, Err(ApiError::NotFound)),
    }
}

/// Updates a content record in place of the old one: writes the new
/// record and repoints the section's link. Returns the new record's
/// address — contents are addressed by record, not by anchor.
pub fn update(
    store: &mut Store,
    acting_agent: Address,
    content_address: Address,
    name: String,
    url: String,
    description: String,
    timestamp: u64,
) -> (r: Result<Address, ApiError>)
    requires
        has_room(old(store)@, 1),
    ensures
        final(store)@ == update_spec(
            old(store)@,
            acting_agent,
            content_address,
            name@,
            url@,
            description@,
            timestamp,
        ).0,
        r == update_spec(
            old(store)@,
            acting_agent,
            content_address,
            name@,
            url@,
            description@,
            timestamp,
        ).1,
        !(old(store)@.get(content_address) matches Some(RecordV::Content(_))) ==> r == Err::<
            Address,
            ApiError,
        >(ApiError::NotFound) && final(store)@ == old(store)@,
        (old(store)@.get(content_address) matches Some(RecordV::Content(c)) && acting_agent
            != c.teacher_address) ==> r == Err::<Address, ApiError>(ApiError::Unauthorized) && final(store)@
            == old(store)@,
        (old(store)@.get(content_address) matches Some(RecordV::Content(c)) && acting_agent
            == c.teacher_address) ==> r is Ok,
{
    proof {
        assert(seq![acting_agent][0] == acting_agent);
    }
    let content = match store.get(content_address) {
        Some(Record::Content(content)) => content.clone(),
        _ => {
            return Err(ApiError::NotFound);
        },
    };
    let new_content = Content::new(
        name,
        content.section_anchor_address,
        url,
        timestamp,
        description,
        content.teacher_address,
    );
    let mut sources: Vec<Address> = Vec::new();
    sources.push(acting_agent);
    proof {
        assert(sources@ =~= seq![acting_agent]);
    }
    validation::modify(&new_content, &content, &sources)?;
    let updated_content_address = store.put(Record::Content(new_content));
    store.remove_link(content.section_anchor_address, content_address, LinkKind::SectionToContent);
    store.put_link(
        content.section_anchor_address,
        updated_content_address,
        LinkKind::SectionToContent,
    );
    Ok(updated_content_address)
}

/// The store and result of deleting the content at `content_address`,
/// signed by `agent`: the section's link to it and the record itself are
/// removed.
pub open spec fn delete_spec(s: StoreV, agent: Address, content_address: Address) -> (
    StoreV,
    Result<Address, ApiError>,
) {
    match s.get(content_address) {
        Some(RecordV::Content(content)) => match validation::delete_spec(content, seq![agent]) {
            Err(e) => (s, Err(e)),
            Ok(_) => {
                let s1 = s.remove_link(
                    Link {
                        base: content.section_anchor_address,
                        target: content_address,
                        kind: LinkKind::SectionToContent,
                    },
                );
                (s1.remove(content_address), Ok(content_address))
            },
        },
        _ => (s, Err(ApiError::NotFound)),
    }
}

/// Deletes a content record: removes the section's link to it and the
/// record itself.
pub fn delete(store: &mut Store, acting_agent: Address, content_address: Address) -> (r: Result<
    Address,
    ApiError,
>)
    ensures
        final(store)@ == delete_spec(old(store)@, acting_agent, content_address).0,
        r == delete_spec(old(store)@, acting_agent, content_address).1,
        !(old(store)@.get(content_address) matches Some(RecordV::Content(_))) ==> r == Err::<
            Address,
            ApiError,
        >(ApiError::NotFound) && final(store)@ == old(store)@,
        (old(store)@.get(content_address) matches Some(RecordV::Content(c)) && acting_agent
            != c.teacher_address) ==> r == Err::<Address, ApiError>(ApiError::Unauthorized) && final(store)@
            == old(store)@,
        (old(store)@.get(content_address) matches Some(RecordV::Content(c)) && acting_agent
            == c.teacher_address) ==> r == Ok::<Address, ApiError>(content_address),
{
    proof {
        assert(seq![acting_agent][0] == acting_agent);
    }
    let content = match store.get(content_address) {
        Some(Record::Content(content)) => content.clone(),
        _ => {
            return Err(ApiError::NotFound);
        },
    };
    let mut sources: Vec<Address> = Vec::new();
    sources.push(acting_agent);
    proof {
        assert(sources@ =~= seq![acting_agent]);
    }
    validation::delete(&content, &sources)?;
    store.remove_link(content.section_anchor_address, content_address, LinkKind::SectionToContent);
    let _removed = store.remove_entry(content_address);
    Ok(content_address)
}

} // verus!
