//! The shapes of the Microsoft identity and Graph answers, and the file
//! list entries the server hands to its clients.
use vstd::prelude::*;

verus! {

/// The answer of the token endpoint.
pub struct TokenResponse {
    pub token_type: String,
    pub scope: String,
    pub expires_in: i64,
    pub ext_expires_in: i64,
    pub access_token: String,
    pub refresh_token: String,
}

/// The answer of a Graph `children` listing.
pub struct GraphListResponse {
    pub value: Vec<GraphDriveItem>,
}

/// A Graph drive item.
pub struct GraphDriveItem {
    pub id: String,
    pub name: String,
    pub size: u64,
    pub last_modified: Option<String>,
    pub folder: Option<GraphFolderFacet>,
    pub file: Option<GraphFileFacet>,
    pub download_url: Option<String>,
}

/// The `folder` facet of a drive item.
pub struct GraphFolderFacet {
    pub child_count: Option<u64>,
}

/// The `file` facet of a drive item.
pub struct GraphFileFacet {
    pub mime_type: Option<String>,
}

/// An entry of the file list.
pub struct FileListItem {
    pub id: String,
    pub name: String,
    pub size: u64,
    pub item_type: FileListItemType,
    pub last_modified: Option<String>,
    pub child_count: Option<u64>,
    pub mime_type: Option<String>,
    pub download_url: Option<String>,
}

/// Whether an entry is a file or a folder.
#[derive(Clone, Copy, Debug, PartialEq, Eq)]
pub enum FileListItemType {
    File,
    Folder,
}

/// The file list entry that a drive item becomes: a folder exactly when it
/// has a folder facet, the child count taken from that facet, the MIME type
/// from the file facet, everything else carried over.
pub open spec fn file_list_item_of(item: GraphDriveItem) -> FileListItem {
    FileListItem {
        id: item.id,
        name: item.name,
        size: item.size,
        item_type: if item.folder is Some {
            FileListItemType::Folder
        } else {
            FileListItemType::File
        },
        last_modified: item.last_modified,
        child_count: match item.folder {
            Some(f) => f.child_count,
            None => None,
        },
        mime_type: match item.file {
            Some(f) => f.mime_type,
            None => None,
        },
        download_url: item.download_url,
    }
}

impl From<GraphDriveItem> for FileListItem {
    fn from(item: GraphDriveItem) -> (r: Self)
        ensures
            r.id == item.id,
            r.name == item.name,
            r.size == item.size,
            (r.item_type == FileListItemType::Folder) == (item.folder is Some),
    {
        let item_type = if item.folder.is_some() {
            FileListItemType::Folder
        } else {
            FileListItemType::File
        };
        let child_count = match item.folder {
            Some(f) => f.child_count,
            None => None,
        };
        let mime_type = match item.file {
            Some(f) => f.mime_type,
            None => None,
        };
        FileListItem {
            id: item.id,
            name: item.name,
            size: item.size,
            item_type,
            last_modified: item.last_modified,
            child_count,
            mime_type,
            download_url: item.download_url,
        }
    }
}

impl vstd::std_specs::convert::FromSpecImpl<GraphDriveItem> for FileListItem {
    open spec fn obeys_from_spec() -> bool {
        true
    }

    open spec fn from_spec(item: GraphDriveItem) -> FileListItem {
        file_list_item_of(item)
    }
}

/// The file list of a Graph listing: one entry per drive item, in order.
pub fn file_list_from_response(response: GraphListResponse) -> (r: Vec<FileListItem>)
    ensures
        r.len() == response.value.len(),
        forall|i: int| 0 <= i < r.len() ==> r[i] == file_list_item_of(#[trigger] response.value[i]),
        forall|i: int|
            0 <= i < r.len() ==> (#[trigger] r[i]).id == response.value[i].id && r[i].name
                == response.value[i].name && r[i].size == response.value[i].size && (r[i].item_type
                == FileListItemType::Folder) == (response.value[i].folder is Some),
{
    let ghost items = response.value@;
    let mut rest = response.value;
    let mut out: Vec<FileListItem> = Vec::new();
    while rest.len() > 0
        invariant
            out.len() + rest.len() == items.len(),
            rest@ == items.skip(out.len() as int),
            forall|i: int| 0 <= i < out.len() ==> out[i] == file_list_item_of(#[trigger] items[i]),
        decreases rest.len(),
    {
        let item = rest.remove(0);
        assert(item == items[out.len() as int]);
        proof {
            lemma_file_list_entry_keeps_item(item);
        }
        assert(rest@ =~= items.skip(out.len() + 1));
        out.push(FileListItem::from(item));
    }
    proof {
        assert forall|i: int| 0 <= i < out.len() implies (#[trigger] out[i]).id == items[i].id
            && out[i].name == items[i].name && out[i].size == items[i].size && (out[i].item_type
            == FileListItemType::Folder) == (items[i].folder is Some) by {
            lemma_file_list_entry_keeps_item(items[i]);
        }
    }
    out
}

/// A drive item's entry keeps what the item says of itself, whatever its
/// kind: its id, name, size, modification time and download URL; it is a
/// folder exactly when the item has a folder facet, whose child count it
/// carries, and it carries the MIME type of a file facet.
pub proof fn lemma_file_list_entry_keeps_item(item: GraphDriveItem)
    ensures
        ({
            let entry = file_list_item_of(item);
            &&& entry.id == item.id
            &&& entry.name == item.name
            &&& entry.size == item.size
            &&& entry.last_modified == item.last_modified
            &&& entry.download_url == item.download_url
            &&& (entry.item_type == FileListItemType::Folder) == (item.folder is Some)
            &&& (entry.item_type == FileListItemType::File) == (item.folder is None)
            &&& entry.child_count == (match item.folder {
                Some(f) => f.child_count,
                None => None,
            })
            &&& entry.mime_type == (match item.file {
                Some(f) => f.mime_type,
                None => None,
            })
        }),
{
}

} // verus!
