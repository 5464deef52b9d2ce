//! The rows of the message store and the statements that read and write
//! them.
//!
//! The store itself is an SQL engine that the caller runs. This module says
//! which statement each operation issues, with which values bound, and how a
//! row that comes back is read.

use vstd::prelude::*;

verus! {

/// A value bound to a statement or found in a row.
#[derive(Debug)]
pub enum SqlValue {
    Null,
    Integer(i64),
    Text(String),
}

/// A bound value as mathematics sees it.
pub enum SqlParam {
    Null,
    Integer(int),
    Text(Seq<char>),
}

impl SqlValue {
    /// The value as mathematics sees it.
    pub open spec fn view(&self) -> SqlParam {
        match *self {
            SqlValue::Null => SqlParam::Null,
            SqlValue::Integer(i) => SqlParam::Integer(i as int),
            SqlValue::Text(s) => SqlParam::Text(s@),
        }
    }
}

/// A statement with the values bound to its numbered parameters, in order.
#[derive(Debug)]
pub struct Statement {
    pub sql: String,
    pub params: Vec<SqlValue>,
}

impl Statement {
    /// The bound values.
    pub open spec fn bound(&self) -> Seq<SqlParam> {
        bound_row(self.params@)
    }
}

/// The values of a row or of a parameter list.
pub open spec fn bound_row(values: Seq<SqlValue>) -> Seq<SqlParam> {
    values.map_values(|v: SqlValue| v@)
}

/// One step of bringing the schema up to date.
#[derive(Debug)]
pub struct MigrationStep {
    pub sql: &'static str,
    /// Whether a failure of the step is passed over: the step adds what may
    /// be there already.
    pub tolerated: bool,
}

/// A text, or nothing, as mathematics sees it.
pub open spec fn optional_view(value: Option<String>) -> Option<Seq<char>> {
    match value {
        Some(s) => Some(s@),
        None => None,
    }
}

/// The bound value of a text that may be absent.
pub open spec fn optional_param(value: Option<String>) -> SqlParam {
    match value {
        Some(s) => SqlParam::Text(s@),
        None => SqlParam::Null,
    }
}

/// The bound value of a text that may be absent.
pub open spec fn optional_str_param(value: Option<&str>) -> SqlParam {
    match value {
        Some(s) => SqlParam::Text(s@),
        None => SqlParam::Null,
    }
}

/// The bound value of a flag: 1 for true, 0 for false.
pub open spec fn flag_param(value: bool) -> SqlParam {
    if value {
        SqlParam::Integer(1)
    } else {
        SqlParam::Integer(0)
    }
}

/// The text in column `i`, where the row has such a column and it holds text.
pub open spec fn text_at(row: Seq<SqlParam>, i: int) -> Option<Seq<char>> {
    if 0 <= i < row.len() {
        match row[i] {
            SqlParam::Text(s) => Some(s),
            _ => None,
        }
    } else {
        None
    }
}

/// The text or the absence of it in column `i`, where the row has such a
/// column and it holds text or null.
pub open spec fn optional_text_at(row: Seq<SqlParam>, i: int) -> Option<Option<Seq<char>>> {
    if 0 <= i < row.len() {
        match row[i] {
            SqlParam::Text(s) => Some(Some(s)),
            SqlParam::Null => Some(None),
            _ => None,
        }
    } else {
        None
    }
}

/// The integer in column `i`, where the row has such a column and it holds
/// an integer.
pub open spec fn integer_at(row: Seq<SqlParam>, i: int) -> Option<int> {
    if 0 <= i < row.len() {
        match row[i] {
            SqlParam::Integer(v) => Some(v),
            _ => None,
        }
    } else {
        None
    }
}

/// The 32-bit integer in column `i`, where the row has such a column and it
/// holds an integer of that range.
pub open spec fn small_integer_at(row: Seq<SqlParam>, i: int) -> Option<int> {
    match integer_at(row, i) {
        Some(v) => if i32::MIN <= v <= i32::MAX {
            Some(v)
        } else {
            None
        },
        None => None,
    }
}

/// The flag in column `i`: a 32-bit integer, true unless it is 0.
pub open spec fn flag_at(row: Seq<SqlParam>, i: int) -> Option<bool> {
    match small_integer_at(row, i) {
        Some(v) => Some(v != 0),
        None => None,
    }
}

/// A text as a bound value.
pub fn text(value: &str) -> (bound: SqlValue)
    ensures
        bound@ == SqlParam::Text(value@),
{
    SqlValue::Text(String::from_str(value))
}

/// A text that may be absent as a bound value.
pub fn optional(value: &Option<String>) -> (bound: SqlValue)
    ensures
        bound@ == optional_param(*value),
{
    match value {
        Some(s) => SqlValue::Text(s.clone()),
        None => SqlValue::Null,
    }
}

/// A text that may be absent as a bound value.
pub fn optional_str(value: Option<&str>) -> (bound: SqlValue)
    ensures
        bound@ == optional_str_param(value),
{
    match value {
        Some(s) => SqlValue::Text(String::from_str(s)),
        None => SqlValue::Null,
    }
}

/// A flag as a bound value.
pub fn flag(value: bool) -> (bound: SqlValue)
    ensures
        bound@ == flag_param(value),
{
    if value {
        SqlValue::Integer(1)
    } else {
        SqlValue::Integer(0)
    }
}

/// A copy of a text that may be absent.
pub fn copy_optional(value: &Option<String>) -> (copy: Option<String>)
    ensures
        copy == *value,
{
    match value {
        Some(s) => Some(s.clone()),
        None => None,
    }
}

/// The text in column `i` of a row.
pub fn column_text(row: &Vec<SqlValue>, i: usize) -> (value: Option<String>)
    ensures
        optional_view(value) == text_at(bound_row(row@), i as int),
{
    if i >= row.len() {
        return None;
    }
    match &row[i] {
        SqlValue::Text(s) => Some(s.clone()),
        _ => None,
    }
}

/// The text, or the absence of it, in column `i` of a row.
pub fn column_optional_text(row: &Vec<SqlValue>, i: usize) -> (value: Option<Option<String>>)
    ensures
        match value {
            Some(v) => optional_text_at(bound_row(row@), i as int) == Some(optional_view(v)),
            None => optional_text_at(bound_row(row@), i as int) is None,
        },
{
    if i >= row.len() {
        return None;
    }
    match &row[i] {
        SqlValue::Text(s) => Some(Some(s.clone())),
        SqlValue::Null => Some(None),
        _ => None,
    }
}

/// The integer in column `i` of a row.
pub fn column_integer(row: &Vec<SqlValue>, i: usize) -> (value: Option<i64>)
    ensures
        match value {
            Some(v) => integer_at(bound_row(row@), i as int) == Some(v as int),
            None => integer_at(bound_row(row@), i as int) is None,
        },
{
    if i >= row.len() {
        return None;
    }
    match &row[i] {
        SqlValue::Integer(v) => Some(*v),
        _ => None,
    }
}

/// The 32-bit integer in column `i` of a row.
pub fn column_small_integer(row: &Vec<SqlValue>, i: usize) -> (value: Option<i32>)
    ensures
        match value {
            Some(v) => small_integer_at(bound_row(row@), i as int) == Some(v as int),
            None => small_integer_at(bound_row(row@), i as int) is None,
        },
{
    match column_integer(row, i) {
        Some(v) => if -0x8000_0000 <= v && v <= 0x7fff_ffff {
            Some(v as i32)
        } else {
            None
        },
        None => None,
    }
}

/// The flag in column `i` of a row.
pub fn column_flag(row: &Vec<SqlValue>, i: usize) -> (value: Option<bool>)
    ensures
        value == flag_at(bound_row(row@), i as int),
{
    match column_small_integer(row, i) {
        Some(v) => Some(v != 0),
        None => None,
    }
}

/// A user: this device's owner or a peer.
#[derive(Debug)]
pub struct User {
    pub id: String,
    pub username: String,
    pub device_id: String,
    pub public_key: Option<String>,
    pub avatar_path: Option<String>,
    pub bio: Option<String>,
    pub designation: Option<String>,
    pub last_seen: Option<String>,
    pub is_online: bool,
    pub created_at: String,
}

impl Clone for User {
    fn clone(&self) -> (copy: Self)
        ensures
            copy.id == self.id,
            copy.username == self.username,
            copy.device_id == self.device_id,
            copy.public_key == self.public_key,
            copy.avatar_path == self.avatar_path,
            copy.bio == self.bio,
            copy.designation == self.designation,
            copy.last_seen == self.last_seen,
            copy.is_online == self.is_online,
            copy.created_at == self.created_at,
    {
        User {
            id: self.id.clone(),
            username: self.username.clone(),
            device_id: self.device_id.clone(),
            public_key: copy_optional(&self.public_key),
            avatar_path: copy_optional(&self.avatar_path),
            bio: copy_optional(&self.bio),
            designation: copy_optional(&self.designation),
            last_seen: copy_optional(&self.last_seen),
            is_online: self.is_online,
            created_at: self.created_at.clone(),
        }
    }
}

/// A direct message between two users.
#[derive(Debug)]
pub struct Message {
    pub id: String,
    pub sender_id: String,
    pub receiver_id: String,
    pub content: String,
    pub message_type: String,
    pub file_path: Option<String>,
    pub is_read: bool,
    pub is_delivered: bool,
    pub created_at: String,
}

impl Clone for Message {
    fn clone(&self) -> (copy: Self)
        ensures
            copy.id == self.id,
            copy.sender_id == self.sender_id,
            copy.receiver_id == self.receiver_id,
            copy.content == self.content,
            copy.message_type == self.message_type,
            copy.file_path == self.file_path,
            copy.is_read == self.is_read,
            copy.is_delivered == self.is_delivered,
            copy.created_at == self.created_at,
    {
        Message {
            id: self.id.clone(),
            sender_id: self.sender_id.clone(),
            receiver_id: self.receiver_id.clone(),
            content: self.content.clone(),
            message_type: self.message_type.clone(),
            file_path: copy_optional(&self.file_path),
            is_read: self.is_read,
            is_delivered: self.is_delivered,
            created_at: self.created_at.clone(),
        }
    }
}

/// The record of a file that was sent or received.
#[derive(Debug)]
pub struct FileRecord {
    pub id: String,
    pub message_id: Option<String>,
    pub sender_id: String,
    pub receiver_id: String,
    pub file_name: String,
    pub file_path: String,
    pub file_size: i64,
    pub file_type: String,
    pub checksum: String,
    pub is_complete: bool,
    pub created_at: String,
}

impl Clone for FileRecord {
    fn clone(&self) -> (copy: Self)
        ensures
            copy.id == self.id,
            copy.message_id == self.message_id,
            copy.sender_id == self.sender_id,
            copy.receiver_id == self.receiver_id,
            copy.file_name == self.file_name,
            copy.file_path == self.file_path,
            copy.file_size == self.file_size,
            copy.file_type == self.file_type,
            copy.checksum == self.checksum,
            copy.is_complete == self.is_complete,
            copy.created_at == self.created_at,
    {
        FileRecord {
            id: self.id.clone(),
            message_id: copy_optional(&self.message_id),
            sender_id: self.sender_id.clone(),
            receiver_id: self.receiver_id.clone(),
            file_name: self.file_name.clone(),
            file_path: self.file_path.clone(),
            file_size: self.file_size,
            file_type: self.file_type.clone(),
            checksum: self.checksum.clone(),
            is_complete: self.is_complete,
            created_at: self.created_at.clone(),
        }
    }
}

/// One setting: a key and its value.
#[derive(Debug)]
pub struct Settings {
    pub key: String,
    pub value: String,
}

impl Clone for Settings {
    fn clone(&self) -> (copy: Self)
        ensures
            copy.key == self.key,
            copy.value == self.value,
    {
        Settings {
            key: self.key.clone(),
            value: self.value.clone(),
        }
    }
}

/// A note.
#[derive(Debug)]
pub struct Note {
    pub id: String,
    pub title: String,
    pub content: String,
    pub color: String,
    pub pinned: bool,
    pub category: Option<String>,
    pub created_at: String,
    pub updated_at: String,
}

impl Clone for Note {
    fn clone(&self) -> (copy: Self)
        ensures
            copy.id == self.id,
            copy.title == self.title,
            copy.content == self.content,
            copy.color == self.color,
            copy.pinned == self.pinned,
            copy.category == self.category,
            copy.created_at == self.created_at,
            copy.updated_at == self.updated_at,
    {
        Note {
            id: self.id.clone(),
            title: self.title.clone(),
            content: self.content.clone(),
            color: self.color.clone(),
            pinned: self.pinned,
            category: copy_optional(&self.category),
            created_at: self.created_at.clone(),
            updated_at: self.updated_at.clone(),
        }
    }
}

/// A group of users.
#[derive(Debug)]
pub struct Group {
    pub id: String,
    pub name: String,
    pub created_by: String,
    pub avatar_color: Option<String>,
    pub created_at: String,
}

impl Clone for Group {
    fn clone(&self) -> (copy: Self)
        ensures
            copy.id == self.id,
            copy.name == self.name,
            copy.created_by == self.created_by,
            copy.avatar_color == self.avatar_color,
            copy.created_at == self.created_at,
    {
        Group {
            id: self.id.clone(),
            name: self.name.clone(),
            created_by: self.created_by.clone(),
            avatar_color: copy_optional(&self.avatar_color),
            created_at: self.created_at.clone(),
        }
    }
}

/// One member of a group.
#[derive(Debug)]
pub struct GroupMember {
    pub group_id: String,
    pub user_id: String,
    pub username: String,
    pub role: String,
    pub joined_at: String,
}

impl Clone for GroupMember {
    fn clone(&self) -> (copy: Self)
        ensures
            copy.group_id == self.group_id,
            copy.user_id == self.user_id,
            copy.username == self.username,
            copy.role == self.role,
            copy.joined_at == self.joined_at,
    {
        GroupMember {
            group_id: self.group_id.clone(),
            user_id: self.user_id.clone(),
            username: self.username.clone(),
            role: self.role.clone(),
            joined_at: self.joined_at.clone(),
        }
    }
}

/// A message to a group.
#[derive(Debug)]
pub struct GroupMessage {
    pub id: String,
    pub group_id: String,
    pub sender_id: String,
    pub sender_name: String,
    pub content: String,
    pub message_type: String,
    pub created_at: String,
}

impl Clone for GroupMessage {
    fn clone(&self) -> (copy: Self)
        ensures
            copy.id == self.id,
            copy.group_id == self.group_id,
            copy.sender_id == self.sender_id,
            copy.sender_name == self.sender_name,
            copy.content == self.content,
            copy.message_type == self.message_type,
            copy.created_at == self.created_at,
    {
        GroupMessage {
            id: self.id.clone(),
            group_id: self.group_id.clone(),
            sender_id: self.sender_id.clone(),
            sender_name: self.sender_name.clone(),
            content: self.content.clone(),
            message_type: self.message_type.clone(),
            created_at: self.created_at.clone(),
        }
    }
}

/// The latest message exchanged with one peer.
#[derive(Debug)]
pub struct LastMessageInfo {
    pub peer_id: String,
    pub content: String,
    pub created_at: String,
    pub is_from_me: bool,
}

impl Clone for LastMessageInfo {
    fn clone(&self) -> (copy: Self)
        ensures
            copy.peer_id == self.peer_id,
            copy.content == self.content,
            copy.created_at == self.created_at,
            copy.is_from_me == self.is_from_me,
    {
        LastMessageInfo {
            peer_id: self.peer_id.clone(),
            content: self.content.clone(),
            created_at: self.created_at.clone(),
            is_from_me: self.is_from_me,
        }
    }
}

/// The statement of `Database::create_user`.
pub const CREATE_USER_SQL: &'static str =
    "INSERT OR REPLACE INTO users (id,username,device_id,public_key,avatar_path,bio,designation,last_seen,is_online,created_at) VALUES (?1,?2,?3,?4,?5,?6,?7,?8,?9,?10)";

/// The statement of `Database::get_user`.
pub const GET_USER_SQL: &'static str =
    "SELECT id,username,device_id,public_key,avatar_path,COALESCE(bio,'') as bio,COALESCE(designation,'') as designation,last_seen,is_online,created_at FROM users WHERE id=?1";

/// The statement of `Database::get_all_users`.
pub const GET_ALL_USERS_SQL: &'static str =
    "SELECT id,username,device_id,public_key,avatar_path,COALESCE(bio,'') as bio,COALESCE(designation,'') as designation,last_seen,is_online,created_at FROM users ORDER BY username";

/// The statement of `Database::update_user_online_status`.
pub const UPDATE_USER_ONLINE_STATUS_SQL: &'static str =
    "UPDATE users SET is_online=?1,last_seen=?2 WHERE id=?3";

/// The statement of `Database::delete_user`.
pub const DELETE_USER_SQL: &'static str =
    "DELETE FROM users WHERE id=?1";

/// The statement of `Database::create_message`.
pub const CREATE_MESSAGE_SQL: &'static str =
    "INSERT OR IGNORE INTO messages (id,sender_id,receiver_id,content,message_type,file_path,is_read,is_delivered,created_at) VALUES (?1,?2,?3,?4,?5,?6,?7,?8,?9)";

/// The statement of `Database::get_messages_between`.
pub const GET_MESSAGES_BETWEEN_SQL: &'static str =
    "SELECT id,sender_id,receiver_id,content,message_type,file_path,is_read,is_delivered,created_at FROM messages WHERE (sender_id=?1 AND receiver_id=?2) OR (sender_id=?2 AND receiver_id=?1) ORDER BY created_at DESC LIMIT ?3";

/// The statement of `Database::get_new_messages_since`.
pub const GET_NEW_MESSAGES_SINCE_SQL: &'static str =
    "SELECT id,sender_id,receiver_id,content,message_type,file_path,is_read,is_delivered,created_at FROM messages WHERE ((sender_id=?1 AND receiver_id=?2) OR (sender_id=?2 AND receiver_id=?1)) AND created_at > ?3 ORDER BY created_at ASC";

/// The statement of `Database::mark_message_read`.
pub const MARK_MESSAGE_READ_SQL: &'static str =
    "UPDATE messages SET is_read=1, is_delivered=1 WHERE id=?1";

/// The statement of `Database::mark_messages_read_from_peer`.
pub const MARK_MESSAGES_READ_FROM_PEER_SQL: &'static str =
    "UPDATE messages SET is_read=1, is_delivered=1 WHERE receiver_id=?1 AND sender_id=?2 AND is_read=0";

/// The statement of `Database::mark_message_delivered`.
pub const MARK_MESSAGE_DELIVERED_SQL: &'static str =
    "UPDATE messages SET is_delivered=1 WHERE id=?1";

/// The statement of `Database::delete_message`.
pub const DELETE_MESSAGE_SQL: &'static str =
    "DELETE FROM messages WHERE id=?1";

/// The statement of `Database::delete_all_messages_with_peer`.
pub const DELETE_ALL_MESSAGES_WITH_PEER_SQL: &'static str =
    "DELETE FROM messages WHERE (sender_id=?1 AND receiver_id=?2) OR (sender_id=?2 AND receiver_id=?1)";

/// The statement of `Database::update_message_file_path`.
pub const UPDATE_MESSAGE_FILE_PATH_SQL: &'static str =
    "UPDATE messages SET file_path=?1 WHERE id=?2";

/// The statement of `Database::get_undelivered_messages_for_peer`.
pub const GET_UNDELIVERED_MESSAGES_FOR_PEER_SQL: &'static str =
    "SELECT id,sender_id,receiver_id,content,message_type,file_path,is_read,is_delivered,created_at FROM messages WHERE sender_id=?1 AND receiver_id=?2 AND is_delivered=0 ORDER BY created_at ASC LIMIT 100";

/// The statement of `Database::get_unread_count`.
pub const GET_UNREAD_COUNT_SQL: &'static str =
    "SELECT COUNT(*) FROM messages WHERE receiver_id=?1 AND is_read=0";

/// The statement of `Database::get_unread_count_from_peer`.
pub const GET_UNREAD_COUNT_FROM_PEER_SQL: &'static str =
    "SELECT COUNT(*) FROM messages WHERE receiver_id=?1 AND sender_id=?2 AND is_read=0";

/// The statement of `Database::get_last_messages`.
pub const GET_LAST_MESSAGES_SQL: &'static str =
    "SELECT peer_id, content, created_at, is_from_me FROM ( SELECT CASE WHEN sender_id=?1 THEN receiver_id ELSE sender_id END as peer_id, content, created_at, CASE WHEN sender_id=?1 THEN 1 ELSE 0 END as is_from_me, ROW_NUMBER() OVER ( PARTITION BY CASE WHEN sender_id=?1 THEN receiver_id ELSE sender_id END ORDER BY created_at DESC ) as rn FROM messages WHERE sender_id=?1 OR receiver_id=?1 ) WHERE rn=1";

/// The statement of `Database::create_file_record`.
pub const CREATE_FILE_RECORD_SQL: &'static str =
    "INSERT INTO files (id,message_id,sender_id,receiver_id,file_name,file_path,file_size,file_type,checksum,is_complete,created_at) VALUES (?1,?2,?3,?4,?5,?6,?7,?8,?9,?10,?11)";

/// The statement of `Database::mark_file_complete`.
pub const MARK_FILE_COMPLETE_SQL: &'static str =
    "UPDATE files SET is_complete=1 WHERE id=?1";

/// The statement of `Database::get_file`.
pub const GET_FILE_SQL: &'static str =
    "SELECT id,message_id,sender_id,receiver_id,file_name,file_path,file_size,file_type,checksum,is_complete,created_at FROM files WHERE id=?1";

/// The statement of `Database::set_setting`.
pub const SET_SETTING_SQL: &'static str =
    "INSERT OR REPLACE INTO settings (key,value) VALUES (?1,?2)";

/// The statement of `Database::get_setting`.
pub const GET_SETTING_SQL: &'static str =
    "SELECT value FROM settings WHERE key=?1";

/// The statement of `Database::get_all_settings`.
pub const GET_ALL_SETTINGS_SQL: &'static str =
    "SELECT key,value FROM settings";

/// The statement of `Database::save_note`.
pub const SAVE_NOTE_SQL: &'static str =
    "INSERT OR REPLACE INTO notes (id,title,content,color,pinned,category,created_at,updated_at) VALUES (?1,?2,?3,?4,?5,?6,?7,?8)";

/// The statement of `Database::get_all_notes`.
pub const GET_ALL_NOTES_SQL: &'static str =
    "SELECT id,title,content,color,pinned,category,created_at,updated_at FROM notes ORDER BY pinned DESC, updated_at DESC";

/// The statement of `Database::delete_note`.
pub const DELETE_NOTE_SQL: &'static str =
    "DELETE FROM notes WHERE id=?1";

/// The statement of `Database::toggle_note_pin`.
pub const TOGGLE_NOTE_PIN_SQL: &'static str =
    "UPDATE notes SET pinned=CASE WHEN pinned=0 THEN 1 ELSE 0 END, updated_at=?2 WHERE id=?1";

/// The statement of `Database::create_group`.
pub const CREATE_GROUP_SQL: &'static str =
    "INSERT INTO groups (id,name,created_by,avatar_color,created_at) VALUES (?1,?2,?3,?4,?5)";

/// The statement of `Database::add_group_member`.
pub const ADD_GROUP_MEMBER_SQL: &'static str =
    "INSERT OR REPLACE INTO group_members (group_id,user_id,username,role,joined_at) VALUES (?1,?2,?3,?4,?5)";

/// The statement of `Database::remove_group_member`.
pub const REMOVE_GROUP_MEMBER_SQL: &'static str =
    "DELETE FROM group_members WHERE group_id=?1 AND user_id=?2";

/// The statement of `Database::get_groups`.
pub const GET_GROUPS_SQL: &'static str =
    "SELECT g.id,g.name,g.created_by,g.avatar_color,g.created_at FROM groups g INNER JOIN group_members gm ON g.id=gm.group_id WHERE gm.user_id=?1 ORDER BY g.created_at DESC";

/// The statement of `Database::get_group_members`.
pub const GET_GROUP_MEMBERS_SQL: &'static str =
    "SELECT group_id,user_id,username,role,joined_at FROM group_members WHERE group_id=?1";

/// The statement of `Database::send_group_message`.
pub const SEND_GROUP_MESSAGE_SQL: &'static str =
    "INSERT INTO group_messages (id,group_id,sender_id,sender_name,content,message_type,created_at) VALUES (?1,?2,?3,?4,?5,?6,?7)";

/// The statement of `Database::get_group_messages`.
pub const GET_GROUP_MESSAGES_SQL: &'static str =
    "SELECT id,group_id,sender_id,sender_name,content,message_type,created_at FROM group_messages WHERE group_id=?1 ORDER BY created_at DESC LIMIT ?2";

/// The statement of `Database::upsert_peer_as_user`.
pub const UPSERT_PEER_AS_USER_SQL: &'static str =
    "INSERT INTO users (id,username,device_id,public_key,avatar_path,bio,designation,last_seen,is_online,created_at) VALUES (?1,?2,?1,?3,NULL,'','',?4,1,?4) ON CONFLICT(id) DO UPDATE SET username=excluded.username, public_key=COALESCE(excluded.public_key,users.public_key), last_seen=excluded.last_seen, is_online=1";

/// The statement of `Database::get_users_with_messages`.
pub const GET_USERS_WITH_MESSAGES_SQL: &'static str =
    "SELECT DISTINCT u.id,u.username,u.device_id,u.public_key,u.avatar_path, COALESCE(u.bio,''),COALESCE(u.designation,''),u.last_seen,u.is_online,u.created_at FROM users u INNER JOIN messages m ON (m.sender_id=u.id OR m.receiver_id=u.id) WHERE u.id!=?1 AND (m.sender_id=?1 OR m.receiver_id=?1) ORDER BY u.username";

/// The statement of `Database::cache_peer`.
pub const CACHE_PEER_SQL: &'static str =
    "INSERT OR REPLACE INTO peers (device_id,username,ip_address,port,public_key,last_seen) VALUES (?1,?2,?3,?4,?5,?6)";

/// The statement of `Database::get_cached_peers`.
pub const GET_CACHED_PEERS_SQL: &'static str =
    "SELECT device_id,username,ip_address,port FROM peers ORDER BY last_seen DESC";

/// The statement of `Database::get_messages_paginated` with a cursor.
pub const GET_MESSAGES_BEFORE_SQL: &'static str =
    "SELECT id,sender_id,receiver_id,content,message_type,file_path,is_read,is_delivered,created_at FROM messages WHERE ((sender_id=?1 AND receiver_id=?2) OR (sender_id=?2 AND receiver_id=?1)) AND created_at < ?3 ORDER BY created_at DESC LIMIT ?4";

/// The first statement of `Database::delete_group`.
pub const DELETE_GROUP_MESSAGES_SQL: &'static str =
    "DELETE FROM group_messages WHERE group_id=?1";

/// The second statement of `Database::delete_group`.
pub const DELETE_GROUP_MEMBERS_SQL: &'static str =
    "DELETE FROM group_members WHERE group_id=?1";

/// The third statement of `Database::delete_group`.
pub const DELETE_GROUP_SQL: &'static str =
    "DELETE FROM groups WHERE id=?1";

/// The first statement of `Database::set_user_avatar`.
pub const ENSURE_USER_SQL: &'static str =
    "INSERT OR IGNORE INTO users (id,username,device_id,created_at) VALUES (?1,?2,?1,?3)";

/// The second statement of `Database::set_user_avatar`.
pub const SET_USER_AVATAR_SQL: &'static str =
    "UPDATE users SET avatar_path=?1 WHERE id=?2";

/// The statement of `Database::get_shared_media` without a type.
pub const SHARED_MEDIA_SQL: &'static str =
    "SELECT id,sender_id,receiver_id,content,message_type,file_path,is_read,is_delivered,created_at FROM messages WHERE ((sender_id=?1 AND receiver_id=?2) OR (sender_id=?2 AND receiver_id=?1)) AND message_type IN ('image','file') ORDER BY created_at DESC";

/// The statement of `Database::get_shared_media` with a type.
pub const SHARED_MEDIA_OF_TYPE_SQL: &'static str =
    "SELECT id,sender_id,receiver_id,content,message_type,file_path,is_read,is_delivered,created_at FROM messages WHERE ((sender_id=?1 AND receiver_id=?2) OR (sender_id=?2 AND receiver_id=?1)) AND message_type=?3 ORDER BY created_at DESC";

/// Settings of the engine: write-ahead log, normal synchronous mode, a small page cache, foreign keys enforced.
pub const PRAGMAS_SQL: &'static str =
    "PRAGMA journal_mode = WAL; PRAGMA synchronous = NORMAL; PRAGMA cache_size = -8000; PRAGMA temp_store = MEMORY; PRAGMA mmap_size = 268435456; PRAGMA foreign_keys = ON;";

/// The table of users.
pub const CREATE_USERS_SQL: &'static str =
    "CREATE TABLE IF NOT EXISTS users ( id TEXT PRIMARY KEY, username TEXT NOT NULL, device_id TEXT UNIQUE NOT NULL, public_key TEXT, avatar_path TEXT, bio TEXT DEFAULT '', designation TEXT DEFAULT '', last_seen TEXT, is_online INTEGER DEFAULT 0, created_at TEXT NOT NULL )";

/// The column that older stores lack for the bio.
pub const ADD_BIO_SQL: &'static str =
    "ALTER TABLE users ADD COLUMN bio TEXT DEFAULT ''";

/// The column that older stores lack for the designation.
pub const ADD_DESIGNATION_SQL: &'static str =
    "ALTER TABLE users ADD COLUMN designation TEXT DEFAULT ''";

/// The table of direct messages; both ends of a message are users.
pub const CREATE_MESSAGES_SQL: &'static str =
    "CREATE TABLE IF NOT EXISTS messages ( id TEXT PRIMARY KEY, sender_id TEXT NOT NULL, receiver_id TEXT NOT NULL, content TEXT NOT NULL, message_type TEXT DEFAULT 'text', file_path TEXT, is_read INTEGER DEFAULT 0, is_delivered INTEGER DEFAULT 0, created_at TEXT NOT NULL, FOREIGN KEY (sender_id) REFERENCES users(id), FOREIGN KEY (receiver_id) REFERENCES users(id) )";

/// The table of file records.
pub const CREATE_FILES_SQL: &'static str =
    "CREATE TABLE IF NOT EXISTS files ( id TEXT PRIMARY KEY, message_id TEXT, sender_id TEXT NOT NULL, receiver_id TEXT NOT NULL, file_name TEXT NOT NULL, file_path TEXT NOT NULL, file_size INTEGER NOT NULL, file_type TEXT NOT NULL, checksum TEXT NOT NULL, is_complete INTEGER DEFAULT 0, created_at TEXT NOT NULL )";

/// The table of settings.
pub const CREATE_SETTINGS_SQL: &'static str =
    "CREATE TABLE IF NOT EXISTS settings (key TEXT PRIMARY KEY, value TEXT NOT NULL)";

/// The table of cached peers.
pub const CREATE_PEERS_SQL: &'static str =
    "CREATE TABLE IF NOT EXISTS peers ( device_id TEXT PRIMARY KEY, username TEXT NOT NULL, ip_address TEXT NOT NULL, port INTEGER NOT NULL, public_key TEXT, last_seen TEXT NOT NULL, is_trusted INTEGER DEFAULT 0 )";

/// The table of notes.
pub const CREATE_NOTES_SQL: &'static str =
    "CREATE TABLE IF NOT EXISTS notes ( id TEXT PRIMARY KEY, title TEXT NOT NULL, content TEXT DEFAULT '', color TEXT DEFAULT '#fef3c7', pinned INTEGER DEFAULT 0, category TEXT DEFAULT '', created_at TEXT NOT NULL, updated_at TEXT NOT NULL )";

/// The table of groups.
pub const CREATE_GROUPS_SQL: &'static str =
    "CREATE TABLE IF NOT EXISTS groups ( id TEXT PRIMARY KEY, name TEXT NOT NULL, created_by TEXT NOT NULL, avatar_color TEXT DEFAULT '#4f46e5', created_at TEXT NOT NULL )";

/// The table of group members; they go when their group goes.
pub const CREATE_GROUP_MEMBERS_SQL: &'static str =
    "CREATE TABLE IF NOT EXISTS group_members ( group_id TEXT NOT NULL, user_id TEXT NOT NULL, username TEXT NOT NULL DEFAULT '', role TEXT DEFAULT 'member', joined_at TEXT NOT NULL, PRIMARY KEY (group_id, user_id), FOREIGN KEY (group_id) REFERENCES groups(id) ON DELETE CASCADE )";

/// The table of group messages; they go when their group goes.
pub const CREATE_GROUP_MESSAGES_SQL: &'static str =
    "CREATE TABLE IF NOT EXISTS group_messages ( id TEXT PRIMARY KEY, group_id TEXT NOT NULL, sender_id TEXT NOT NULL, sender_name TEXT NOT NULL DEFAULT '', content TEXT NOT NULL, message_type TEXT DEFAULT 'text', created_at TEXT NOT NULL, FOREIGN KEY (group_id) REFERENCES groups(id) ON DELETE CASCADE )";

/// Index of messages by sender.
pub const INDEX_MESSAGE_SENDER_SQL: &'static str =
    "CREATE INDEX IF NOT EXISTS idx_msg_sender ON messages(sender_id)";

/// Index of messages by receiver.
pub const INDEX_MESSAGE_RECEIVER_SQL: &'static str =
    "CREATE INDEX IF NOT EXISTS idx_msg_receiver ON messages(receiver_id)";

/// Index of messages by time.
pub const INDEX_MESSAGE_CREATED_SQL: &'static str =
    "CREATE INDEX IF NOT EXISTS idx_msg_created ON messages(created_at)";

/// Index of messages by conversation and time.
pub const INDEX_CONVERSATION_SQL: &'static str =
    "CREATE INDEX IF NOT EXISTS idx_msg_conv ON messages(sender_id, receiver_id, created_at)";

/// Index of messages for counting the unread.
pub const INDEX_UNREAD_SQL: &'static str =
    "CREATE INDEX IF NOT EXISTS idx_msg_unread ON messages(receiver_id, is_read, sender_id)";

/// Index of notes by pin and time.
pub const INDEX_NOTES_SQL: &'static str =
    "CREATE INDEX IF NOT EXISTS idx_notes_pin ON notes(pinned, updated_at)";

/// Index of group messages by group and time.
pub const INDEX_GROUP_MESSAGES_SQL: &'static str =
    "CREATE INDEX IF NOT EXISTS idx_grpmsg_grp ON group_messages(group_id, created_at)";

/// Index of group members by group.
pub const INDEX_GROUP_MEMBERS_SQL: &'static str =
    "CREATE INDEX IF NOT EXISTS idx_grpmem_grp ON group_members(group_id)";

/// Why a row could not be read.
#[derive(Debug, Clone, Copy, PartialEq, Eq, Structural)]
pub enum StoreError {
    /// A column is missing or holds a value of another kind than expected.
    InvalidRow,
}

/// The operations of the store, each as the statement that carries it out.
pub struct Database;

impl Database {
    /// Stores a user, in place of whatever row had the identifier.
    pub fn create_user(user: &User) -> (statement: Statement)
        ensures
            statement.sql@ == CREATE_USER_SQL@,
            statement.bound() == seq![SqlParam::Text(user.id@), SqlParam::Text(user.username@), SqlParam::Text(user.device_id@), optional_param(user.public_key), optional_param(user.avatar_path), optional_param(user.bio), optional_param(user.designation), optional_param(user.last_seen), flag_param(user.is_online), SqlParam::Text(user.created_at@)],
    {
        let mut params: Vec<SqlValue> = Vec::new();
        params.push(text(user.id.as_str()));
        params.push(text(user.username.as_str()));
        params.push(text(user.device_id.as_str()));
        params.push(optional(&user.public_key));
        params.push(optional(&user.avatar_path));
        params.push(optional(&user.bio));
        params.push(optional(&user.designation));
        params.push(optional(&user.last_seen));
        params.push(flag(user.is_online));
        params.push(text(user.created_at.as_str()));
        let statement = Statement { sql: String::from_str(CREATE_USER_SQL), params };
        assert(statement.bound() =~= seq![SqlParam::Text(user.id@), SqlParam::Text(user.username@), SqlParam::Text(user.device_id@), optional_param(user.public_key), optional_param(user.avatar_path), optional_param(user.bio), optional_param(user.designation), optional_param(user.last_seen), flag_param(user.is_online), SqlParam::Text(user.created_at@)]);
        statement
    }

    /// Asks for the user of this identifier.
    pub fn get_user(id: &str) -> (statement: Statement)
        ensures
            statement.sql@ == GET_USER_SQL@,
            statement.bound() == seq![SqlParam::Text(id@)],
    {
        let mut params: Vec<SqlValue> = Vec::new();
        params.push(text(id));
        let statement = Statement { sql: String::from_str(GET_USER_SQL), params };
        assert(statement.bound() =~= seq![SqlParam::Text(id@)]);
        statement
    }

    /// Asks for every user, by name.
    pub fn get_all_users() -> (statement: Statement)
        ensures
            statement.sql@ == GET_ALL_USERS_SQL@,
            statement.bound() == Seq::<SqlParam>::empty(),
    {
        let params: Vec<SqlValue> = Vec::new();
        let statement = Statement { sql: String::from_str(GET_ALL_USERS_SQL), params };
        assert(statement.bound() =~= Seq::<SqlParam>::empty());
        statement
    }

    /// Sets whether a user is online, and when it was last seen.
    pub fn update_user_online_status(id: &str, is_online: bool, now: &str) -> (statement: Statement)
        ensures
            statement.sql@ == UPDATE_USER_ONLINE_STATUS_SQL@,
            statement.bound() == seq![flag_param(is_online), SqlParam::Text(now@), SqlParam::Text(id@)],
    {
        let mut params: Vec<SqlValue> = Vec::new();
        params.push(flag(is_online));
        params.push(text(now));
        params.push(text(id));
        let statement = Statement { sql: String::from_str(UPDATE_USER_ONLINE_STATUS_SQL), params };
        assert(statement.bound() =~= seq![flag_param(is_online), SqlParam::Text(now@), SqlParam::Text(id@)]);
        statement
    }

    /// Deletes the user of this identifier.
    pub fn delete_user(id: &str) -> (statement: Statement)
        ensures
            statement.sql@ == DELETE_USER_SQL@,
            statement.bound() == seq![SqlParam::Text(id@)],
    {
        let mut params: Vec<SqlValue> = Vec::new();
        params.push(text(id));
        let statement = Statement { sql: String::from_str(DELETE_USER_SQL), params };
        assert(statement.bound() =~= seq![SqlParam::Text(id@)]);
        statement
    }

    /// Stores a message, unless a message of its identifier is stored already:
    /// a second arrival of a message changes nothing and is no error.
    pub fn create_message(message: &Message) -> (statement: Statement)
        ensures
            statement.sql@ == CREATE_MESSAGE_SQL@,
            statement.bound() == seq![SqlParam::Text(message.id@), SqlParam::Text(message.sender_id@), SqlParam::Text(message.receiver_id@), SqlParam::Text(message.content@), SqlParam::Text(message.message_type@), optional_param(message.file_path), flag_param(message.is_read), flag_param(message.is_delivered), SqlParam::Text(message.created_at@)],
    {
        let mut params: Vec<SqlValue> = Vec::new();
        params.push(text(message.id.as_str()));
        params.push(text(message.sender_id.as_str()));
        params.push(text(message.receiver_id.as_str()));
        params.push(text(message.content.as_str()));
        params.push(text(message.message_type.as_str()));
        params.push(optional(&message.file_path));
        params.push(flag(message.is_read));
        params.push(flag(message.is_delivered));
        params.push(text(message.created_at.as_str()));
        let statement = Statement { sql: String::from_str(CREATE_MESSAGE_SQL), params };
        assert(statement.bound() =~= seq![SqlParam::Text(message.id@), SqlParam::Text(message.sender_id@), SqlParam::Text(message.receiver_id@), SqlParam::Text(message.content@), SqlParam::Text(message.message_type@), optional_param(message.file_path), flag_param(message.is_read), flag_param(message.is_delivered), SqlParam::Text(message.created_at@)]);
        statement
    }

    /// Asks for the latest messages between two users, whoever sent them,
    /// newest first, `limit` at most.
    pub fn get_messages_between(user1: &str, user2: &str, limit: i32) -> (statement: Statement)
        ensures
            statement.sql@ == GET_MESSAGES_BETWEEN_SQL@,
            statement.bound() == seq![SqlParam::Text(user1@), SqlParam::Text(user2@), SqlParam::Integer(limit as int)],
    {
        let mut params: Vec<SqlValue> = Vec::new();
        params.push(text(user1));
        params.push(text(user2));
        params.push(SqlValue::Integer(limit as i64));
        let statement = Statement { sql: String::from_str(GET_MESSAGES_BETWEEN_SQL), params };
        assert(statement.bound() =~= seq![SqlParam::Text(user1@), SqlParam::Text(user2@), SqlParam::Integer(limit as int)]);
        statement
    }

    /// Asks for the messages between two users that are later than `since`,
    /// oldest first.
    pub fn get_new_messages_since(user1: &str, user2: &str, since: &str) -> (statement: Statement)
        ensures
            statement.sql@ == GET_NEW_MESSAGES_SINCE_SQL@,
            statement.bound() == seq![SqlParam::Text(user1@), SqlParam::Text(user2@), SqlParam::Text(since@)],
    {
        let mut params: Vec<SqlValue> = Vec::new();
        params.push(text(user1));
        params.push(text(user2));
        params.push(text(since));
        let statement = Statement { sql: String::from_str(GET_NEW_MESSAGES_SINCE_SQL), params };
        assert(statement.bound() =~= seq![SqlParam::Text(user1@), SqlParam::Text(user2@), SqlParam::Text(since@)]);
        statement
    }

    /// Marks a message as read. A message that is read counts as delivered.
    pub fn mark_message_read(id: &str) -> (statement: Statement)
        ensures
            statement.sql@ == MARK_MESSAGE_READ_SQL@,
            statement.bound() == seq![SqlParam::Text(id@)],
    {
        let mut params: Vec<SqlValue> = Vec::new();
        params.push(text(id));
        let statement = Statement { sql: String::from_str(MARK_MESSAGE_READ_SQL), params };
        assert(statement.bound() =~= seq![SqlParam::Text(id@)]);
        statement
    }

    /// Marks every unread message of a peer to this device as read, and with
    /// that as delivered.
    pub fn mark_messages_read_from_peer(local_id: &str, peer_id: &str) -> (statement: Statement)
        ensures
            statement.sql@ == MARK_MESSAGES_READ_FROM_PEER_SQL@,
            statement.bound() == seq![SqlParam::Text(local_id@), SqlParam::Text(peer_id@)],
    {
        let mut params: Vec<SqlValue> = Vec::new();
        params.push(text(local_id));
        params.push(text(peer_id));
        let statement = Statement { sql: String::from_str(MARK_MESSAGES_READ_FROM_PEER_SQL), params };
        assert(statement.bound() =~= seq![SqlParam::Text(local_id@), SqlParam::Text(peer_id@)]);
        statement
    }

    /// Marks a message as delivered.
    pub fn mark_message_delivered(id: &str) -> (statement: Statement)
        ensures
            statement.sql@ == MARK_MESSAGE_DELIVERED_SQL@,
            statement.bound() == seq![SqlParam::Text(id@)],
    {
        let mut params: Vec<SqlValue> = Vec::new();
        params.push(text(id));
        let statement = Statement { sql: String::from_str(MARK_MESSAGE_DELIVERED_SQL), params };
        assert(statement.bound() =~= seq![SqlParam::Text(id@)]);
        statement
    }

    /// Deletes a message.
    pub fn delete_message(id: &str) -> (statement: Statement)
        ensures
            statement.sql@ == DELETE_MESSAGE_SQL@,
            statement.bound() == seq![SqlParam::Text(id@)],
    {
        let mut params: Vec<SqlValue> = Vec::new();
        params.push(text(id));
        let statement = Statement { sql: String::from_str(DELETE_MESSAGE_SQL), params };
        assert(statement.bound() =~= seq![SqlParam::Text(id@)]);
        statement
    }

    /// Deletes every message between this device and a peer.
    pub fn delete_all_messages_with_peer(local_id: &str, peer_id: &str) -> (statement: Statement)
        ensures
            statement.sql@ == DELETE_ALL_MESSAGES_WITH_PEER_SQL@,
            statement.bound() == seq![SqlParam::Text(local_id@), SqlParam::Text(peer_id@)],
    {
        let mut params: Vec<SqlValue> = Vec::new();
        params.push(text(local_id));
        params.push(text(peer_id));
        let statement = Statement { sql: String::from_str(DELETE_ALL_MESSAGES_WITH_PEER_SQL), params };
        assert(statement.bound() =~= seq![SqlParam::Text(local_id@), SqlParam::Text(peer_id@)]);
        statement
    }

    /// Sets where the file of a message lies.
    pub fn update_message_file_path(message_id: &str, file_path: &str) -> (statement: Statement)
        ensures
            statement.sql@ == UPDATE_MESSAGE_FILE_PATH_SQL@,
            statement.bound() == seq![SqlParam::Text(file_path@), SqlParam::Text(message_id@)],
    {
        let mut params: Vec<SqlValue> = Vec::new();
        params.push(text(file_path));
        params.push(text(message_id));
        let statement = Statement { sql: String::from_str(UPDATE_MESSAGE_FILE_PATH_SQL), params };
        assert(statement.bound() =~= seq![SqlParam::Text(file_path@), SqlParam::Text(message_id@)]);
        statement
    }

    /// Asks for the messages to a peer that are not delivered yet, oldest
    /// first, a hundred at most.
    pub fn get_undelivered_messages_for_peer(sender_id: &str, receiver_id: &str) -> (statement: Statement)
        ensures
            statement.sql@ == GET_UNDELIVERED_MESSAGES_FOR_PEER_SQL@,
            statement.bound() == seq![SqlParam::Text(sender_id@), SqlParam::Text(receiver_id@)],
    {
        let mut params: Vec<SqlValue> = Vec::new();
        params.push(text(sender_id));
        params.push(text(receiver_id));
        let statement = Statement { sql: String::from_str(GET_UNDELIVERED_MESSAGES_FOR_PEER_SQL), params };
        assert(statement.bound() =~= seq![SqlParam::Text(sender_id@), SqlParam::Text(receiver_id@)]);
        statement
    }

    /// Asks how many messages to a user are unread.
    pub fn get_unread_count(user_id: &str) -> (statement: Statement)
        ensures
            statement.sql@ == GET_UNREAD_COUNT_SQL@,
            statement.bound() == seq![SqlParam::Text(user_id@)],
    {
        let mut params: Vec<SqlValue> = Vec::new();
        params.push(text(user_id));
        let statement = Statement { sql: String::from_str(GET_UNREAD_COUNT_SQL), params };
        assert(statement.bound() =~= seq![SqlParam::Text(user_id@)]);
        statement
    }

    /// Asks how many messages of a peer to this device are unread.
    pub fn get_unread_count_from_peer(local_id: &str, peer_id: &str) -> (statement: Statement)
        ensures
            statement.sql@ == GET_UNREAD_COUNT_FROM_PEER_SQL@,
            statement.bound() == seq![SqlParam::Text(local_id@), SqlParam::Text(peer_id@)],
    {
        let mut params: Vec<SqlValue> = Vec::new();
        params.push(text(local_id));
        params.push(text(peer_id));
        let statement = Statement { sql: String::from_str(GET_UNREAD_COUNT_FROM_PEER_SQL), params };
        assert(statement.bound() =~= seq![SqlParam::Text(local_id@), SqlParam::Text(peer_id@)]);
        statement
    }

    /// Asks, for each peer with whom this device has exchanged messages, for
    /// the latest of them: one row per peer.
    pub fn get_last_messages(local_id: &str) -> (statement: Statement)
        ensures
            statement.sql@ == GET_LAST_MESSAGES_SQL@,
            statement.bound() == seq![SqlParam::Text(local_id@)],
    {
        let mut params: Vec<SqlValue> = Vec::new();
        params.push(text(local_id));
        let statement = Statement { sql: String::from_str(GET_LAST_MESSAGES_SQL), params };
        assert(statement.bound() =~= seq![SqlParam::Text(local_id@)]);
        statement
    }

    /// Stores the record of a file.
    pub fn create_file_record(file: &FileRecord) -> (statement: Statement)
        ensures
            statement.sql@ == CREATE_FILE_RECORD_SQL@,
            statement.bound() == seq![SqlParam::Text(file.id@), optional_param(file.message_id), SqlParam::Text(file.sender_id@), SqlParam::Text(file.receiver_id@), SqlParam::Text(file.file_name@), SqlParam::Text(file.file_path@), SqlParam::Integer(file.file_size as int), SqlParam::Text(file.file_type@), SqlParam::Text(file.checksum@), flag_param(file.is_complete), SqlParam::Text(file.created_at@)],
    {
        let mut params: Vec<SqlValue> = Vec::new();
        params.push(text(file.id.as_str()));
        params.push(optional(&file.message_id));
        params.push(text(file.sender_id.as_str()));
        params.push(text(file.receiver_id.as_str()));
        params.push(text(file.file_name.as_str()));
        params.push(text(file.file_path.as_str()));
        params.push(SqlValue::Integer(file.file_size));
        params.push(text(file.file_type.as_str()));
        params.push(text(file.checksum.as_str()));
        params.push(flag(file.is_complete));
        params.push(text(file.created_at.as_str()));
        let statement = Statement { sql: String::from_str(CREATE_FILE_RECORD_SQL), params };
        assert(statement.bound() =~= seq![SqlParam::Text(file.id@), optional_param(file.message_id), SqlParam::Text(file.sender_id@), SqlParam::Text(file.receiver_id@), SqlParam::Text(file.file_name@), SqlParam::Text(file.file_path@), SqlParam::Integer(file.file_size as int), SqlParam::Text(file.file_type@), SqlParam::Text(file.checksum@), flag_param(file.is_complete), SqlParam::Text(file.created_at@)]);
        statement
    }

    /// Marks the record of a file as complete.
    pub fn mark_file_complete(id: &str) -> (statement: Statement)
        ensures
            statement.sql@ == MARK_FILE_COMPLETE_SQL@,
            statement.bound() == seq![SqlParam::Text(id@)],
    {
        let mut params: Vec<SqlValue> = Vec::new();
        params.push(text(id));
        let statement = Statement { sql: String::from_str(MARK_FILE_COMPLETE_SQL), params };
        assert(statement.bound() =~= seq![SqlParam::Text(id@)]);
        statement
    }

    /// Asks for the record of a file.
    pub fn get_file(id: &str) -> (statement: Statement)
        ensures
            statement.sql@ == GET_FILE_SQL@,
            statement.bound() == seq![SqlParam::Text(id@)],
    {
        let mut params: Vec<SqlValue> = Vec::new();
        params.push(text(id));
        let statement = Statement { sql: String::from_str(GET_FILE_SQL), params };
        assert(statement.bound() =~= seq![SqlParam::Text(id@)]);
        statement
    }

    /// Stores a setting, in place of whatever value the key had.
    pub fn set_setting(key: &str, value: &str) -> (statement: Statement)
        ensures
            statement.sql@ == SET_SETTING_SQL@,
            statement.bound() == seq![SqlParam::Text(key@), SqlParam::Text(value@)],
    {
        let mut params: Vec<SqlValue> = Vec::new();
        params.push(text(key));
        params.push(text(value));
        let statement = Statement { sql: String::from_str(SET_SETTING_SQL), params };
        assert(statement.bound() =~= seq![SqlParam::Text(key@), SqlParam::Text(value@)]);
        statement
    }

    /// Asks for the value of a setting.
    pub fn get_setting(key: &str) -> (statement: Statement)
        ensures
            statement.sql@ == GET_SETTING_SQL@,
            statement.bound() == seq![SqlParam::Text(key@)],
    {
        let mut params: Vec<SqlValue> = Vec::new();
        params.push(text(key));
        let statement = Statement { sql: String::from_str(GET_SETTING_SQL), params };
        assert(statement.bound() =~= seq![SqlParam::Text(key@)]);
        statement
    }

    /// Asks for every setting.
    pub fn get_all_settings() -> (statement: Statement)
        ensures
            statement.sql@ == GET_ALL_SETTINGS_SQL@,
            statement.bound() == Seq::<SqlParam>::empty(),
    {
        let params: Vec<SqlValue> = Vec::new();
        let statement = Statement { sql: String::from_str(GET_ALL_SETTINGS_SQL), params };
        assert(statement.bound() =~= Seq::<SqlParam>::empty());
        statement
    }

    /// Stores a note, in place of whatever note had the identifier.
    pub fn save_note(note: &Note) -> (statement: Statement)
        ensures
            statement.sql@ == SAVE_NOTE_SQL@,
            statement.bound() == seq![SqlParam::Text(note.id@), SqlParam::Text(note.title@), SqlParam::Text(note.content@), SqlParam::Text(note.color@), flag_param(note.pinned), optional_param(note.category), SqlParam::Text(note.created_at@), SqlParam::Text(note.updated_at@)],
    {
        let mut params: Vec<SqlValue> = Vec::new();
        params.push(text(note.id.as_str()));
        params.push(text(note.title.as_str()));
        params.push(text(note.content.as_str()));
        params.push(text(note.color.as_str()));
        params.push(flag(note.pinned));
        params.push(optional(&note.category));
        params.push(text(note.created_at.as_str()));
        params.push(text(note.updated_at.as_str()));
        let statement = Statement { sql: String::from_str(SAVE_NOTE_SQL), params };
        assert(statement.bound() =~= seq![SqlParam::Text(note.id@), SqlParam::Text(note.title@), SqlParam::Text(note.content@), SqlParam::Text(note.color@), flag_param(note.pinned), optional_param(note.category), SqlParam::Text(note.created_at@), SqlParam::Text(note.updated_at@)]);
        statement
    }

    /// Asks for every note, pinned ones first, then the latest changed first.
    pub fn get_all_notes() -> (statement: Statement)
        ensures
            statement.sql@ == GET_ALL_NOTES_SQL@,
            statement.bound() == Seq::<SqlParam>::empty(),
    {
        let params: Vec<SqlValue> = Vec::new();
        let statement = Statement { sql: String::from_str(GET_ALL_NOTES_SQL), params };
        assert(statement.bound() =~= Seq::<SqlParam>::empty());
        statement
    }

    /// Deletes a note.
    pub fn delete_note(id: &str) -> (statement: Statement)
        ensures
            statement.sql@ == DELETE_NOTE_SQL@,
            statement.bound() == seq![SqlParam::Text(id@)],
    {
        let mut params: Vec<SqlValue> = Vec::new();
        params.push(text(id));
        let statement = Statement { sql: String::from_str(DELETE_NOTE_SQL), params };
        assert(statement.bound() =~= seq![SqlParam::Text(id@)]);
        statement
    }

    /// Pins a note that is not pinned and unpins one that is, and notes the
    /// time.
    pub fn toggle_note_pin(id: &str, now: &str) -> (statement: Statement)
        ensures
            statement.sql@ == TOGGLE_NOTE_PIN_SQL@,
            statement.bound() == seq![SqlParam::Text(id@), SqlParam::Text(now@)],
    {
        let mut params: Vec<SqlValue> = Vec::new();
        params.push(text(id));
        params.push(text(now));
        let statement = Statement { sql: String::from_str(TOGGLE_NOTE_PIN_SQL), params };
        assert(statement.bound() =~= seq![SqlParam::Text(id@), SqlParam::Text(now@)]);
        statement
    }

    /// Stores a group.
    pub fn create_group(group: &Group) -> (statement: Statement)
        ensures
            statement.sql@ == CREATE_GROUP_SQL@,
            statement.bound() == seq![SqlParam::Text(group.id@), SqlParam::Text(group.name@), SqlParam::Text(group.created_by@), optional_param(group.avatar_color), SqlParam::Text(group.created_at@)],
    {
        let mut params: Vec<SqlValue> = Vec::new();
        params.push(text(group.id.as_str()));
        params.push(text(group.name.as_str()));
        params.push(text(group.created_by.as_str()));
        params.push(optional(&group.avatar_color));
        params.push(text(group.created_at.as_str()));
        let statement = Statement { sql: String::from_str(CREATE_GROUP_SQL), params };
        assert(statement.bound() =~= seq![SqlParam::Text(group.id@), SqlParam::Text(group.name@), SqlParam::Text(group.created_by@), optional_param(group.avatar_color), SqlParam::Text(group.created_at@)]);
        statement
    }

    /// Stores a member of a group, in place of whatever row the pair had.
    pub fn add_group_member(member: &GroupMember) -> (statement: Statement)
        ensures
            statement.sql@ == ADD_GROUP_MEMBER_SQL@,
            statement.bound() == seq![SqlParam::Text(member.group_id@), SqlParam::Text(member.user_id@), SqlParam::Text(member.username@), SqlParam::Text(member.role@), SqlParam::Text(member.joined_at@)],
    {
        let mut params: Vec<SqlValue> = Vec::new();
        params.push(text(member.group_id.as_str()));
        params.push(text(member.user_id.as_str()));
        params.push(text(member.username.as_str()));
        params.push(text(member.role.as_str()));
        params.push(text(member.joined_at.as_str()));
        let statement = Statement { sql: String::from_str(ADD_GROUP_MEMBER_SQL), params };
        assert(statement.bound() =~= seq![SqlParam::Text(member.group_id@), SqlParam::Text(member.user_id@), SqlParam::Text(member.username@), SqlParam::Text(member.role@), SqlParam::Text(member.joined_at@)]);
        statement
    }

    /// Takes a member out of a group.
    pub fn remove_group_member(group_id: &str, user_id: &str) -> (statement: Statement)
        ensures
            statement.sql@ == REMOVE_GROUP_MEMBER_SQL@,
            statement.bound() == seq![SqlParam::Text(group_id@), SqlParam::Text(user_id@)],
    {
        let mut params: Vec<SqlValue> = Vec::new();
        params.push(text(group_id));
        params.push(text(user_id));
        let statement = Statement { sql: String::from_str(REMOVE_GROUP_MEMBER_SQL), params };
        assert(statement.bound() =~= seq![SqlParam::Text(group_id@), SqlParam::Text(user_id@)]);
        statement
    }

    /// Asks for the groups that a user is a member of, newest first.
    pub fn get_groups(user_id: &str) -> (statement: Statement)
        ensures
            statement.sql@ == GET_GROUPS_SQL@,
            statement.bound() == seq![SqlParam::Text(user_id@)],
    {
        let mut params: Vec<SqlValue> = Vec::new();
        params.push(text(user_id));
        let statement = Statement { sql: String::from_str(GET_GROUPS_SQL), params };
        assert(statement.bound() =~= seq![SqlParam::Text(user_id@)]);
        statement
    }

    /// Asks for the members of a group.
    pub fn get_group_members(group_id: &str) -> (statement: Statement)
        ensures
            statement.sql@ == GET_GROUP_MEMBERS_SQL@,
            statement.bound() == seq![SqlParam::Text(group_id@)],
    {
        let mut params: Vec<SqlValue> = Vec::new();
        params.push(text(group_id));
        let statement = Statement { sql: String::from_str(GET_GROUP_MEMBERS_SQL), params };
        assert(statement.bound() =~= seq![SqlParam::Text(group_id@)]);
        statement
    }

    /// Stores a message to a group.
    pub fn send_group_message(message: &GroupMessage) -> (statement: Statement)
        ensures
            statement.sql@ == SEND_GROUP_MESSAGE_SQL@,
            statement.bound() == seq![SqlParam::Text(message.id@), SqlParam::Text(message.group_id@), SqlParam::Text(message.sender_id@), SqlParam::Text(message.sender_name@), SqlParam::Text(message.content@), SqlParam::Text(message.message_type@), SqlParam::Text(message.created_at@)],
    {
        let mut params: Vec<SqlValue> = Vec::new();
        params.push(text(message.id.as_str()));
        params.push(text(message.group_id.as_str()));
        params.push(text(message.sender_id.as_str()));
        params.push(text(message.sender_name.as_str()));
        params.push(text(message.content.as_str()));
        params.push(text(message.message_type.as_str()));
        params.push(text(message.created_at.as_str()));
        let statement = Statement { sql: String::from_str(SEND_GROUP_MESSAGE_SQL), params };
        assert(statement.bound() =~= seq![SqlParam::Text(message.id@), SqlParam::Text(message.group_id@), SqlParam::Text(message.sender_id@), SqlParam::Text(message.sender_name@), SqlParam::Text(message.content@), SqlParam::Text(message.message_type@), SqlParam::Text(message.created_at@)]);
        statement
    }

    /// Asks for the latest messages of a group, newest first, `limit` at most.
    pub fn get_group_messages(group_id: &str, limit: i32) -> (statement: Statement)
        ensures
            statement.sql@ == GET_GROUP_MESSAGES_SQL@,
            statement.bound() == seq![SqlParam::Text(group_id@), SqlParam::Integer(limit as int)],
    {
        let mut params: Vec<SqlValue> = Vec::new();
        params.push(text(group_id));
        params.push(SqlValue::Integer(limit as i64));
        let statement = Statement { sql: String::from_str(GET_GROUP_MESSAGES_SQL), params };
        assert(statement.bound() =~= seq![SqlParam::Text(group_id@), SqlParam::Integer(limit as int)]);
        statement
    }

    /// Stores a peer as a user, online and seen now. Where the user exists, its
    /// name is replaced and a public key that is known is kept unless a new one
    /// comes.
    pub fn upsert_peer_as_user(device_id: &str, username: &str, public_key: Option<&str>, now: &str) -> (statement: Statement)
        ensures
            statement.sql@ == UPSERT_PEER_AS_USER_SQL@,
            statement.bound() == seq![SqlParam::Text(device_id@), SqlParam::Text(username@), optional_str_param(public_key), SqlParam::Text(now@)],
    {
        let mut params: Vec<SqlValue> = Vec::new();
        params.push(text(device_id));
        params.push(text(username));
        params.push(optional_str(public_key));
        params.push(text(now));
        let statement = Statement { sql: String::from_str(UPSERT_PEER_AS_USER_SQL), params };
        assert(statement.bound() =~= seq![SqlParam::Text(device_id@), SqlParam::Text(username@), optional_str_param(public_key), SqlParam::Text(now@)]);
        statement
    }

    /// Asks for the users with whom this device has exchanged messages, by
    /// name.
    pub fn get_users_with_messages(local_id: &str) -> (statement: Statement)
        ensures
            statement.sql@ == GET_USERS_WITH_MESSAGES_SQL@,
            statement.bound() == seq![SqlParam::Text(local_id@)],
    {
        let mut params: Vec<SqlValue> = Vec::new();
        params.push(text(local_id));
        let statement = Statement { sql: String::from_str(GET_USERS_WITH_MESSAGES_SQL), params };
        assert(statement.bound() =~= seq![SqlParam::Text(local_id@)]);
        statement
    }

    /// Stores where a peer was seen.
    pub fn cache_peer(device_id: &str, username: &str, ip: &str, port: i32, public_key: Option<&str>, now: &str) -> (statement: Statement)
        ensures
            statement.sql@ == CACHE_PEER_SQL@,
            statement.bound() == seq![SqlParam::Text(device_id@), SqlParam::Text(username@), SqlParam::Text(ip@), SqlParam::Integer(port as int), optional_str_param(public_key), SqlParam::Text(now@)],
    {
        let mut params: Vec<SqlValue> = Vec::new();
        params.push(text(device_id));
        params.push(text(username));
        params.push(text(ip));
        params.push(SqlValue::Integer(port as i64));
        params.push(optional_str(public_key));
        params.push(text(now));
        let statement = Statement { sql: String::from_str(CACHE_PEER_SQL), params };
        assert(statement.bound() =~= seq![SqlParam::Text(device_id@), SqlParam::Text(username@), SqlParam::Text(ip@), SqlParam::Integer(port as int), optional_str_param(public_key), SqlParam::Text(now@)]);
        statement
    }

    /// Asks where peers were seen, latest first.
    pub fn get_cached_peers() -> (statement: Statement)
        ensures
            statement.sql@ == GET_CACHED_PEERS_SQL@,
            statement.bound() == Seq::<SqlParam>::empty(),
    {
        let params: Vec<SqlValue> = Vec::new();
        let statement = Statement { sql: String::from_str(GET_CACHED_PEERS_SQL), params };
        assert(statement.bound() =~= Seq::<SqlParam>::empty());
        statement
    }

    /// Asks for a page of the messages between two users, newest first,
    /// `limit` at most: with a cursor, only messages strictly earlier than it.
    pub fn get_messages_paginated(user1: &str, user2: &str, before: Option<&str>, limit: i32) -> (
    statement: Statement)
        ensures
            match before {
                Some(cursor) => statement.sql@ == GET_MESSAGES_BEFORE_SQL@ && statement.bound()
                    == seq![
                    SqlParam::Text(user1@),
                    SqlParam::Text(user2@),
                    SqlParam::Text(cursor@),
                    SqlParam::Integer(limit as int),
                ],
                None => statement.sql@ == GET_MESSAGES_BETWEEN_SQL@ && statement.bound() == seq![
                    SqlParam::Text(user1@),
                    SqlParam::Text(user2@),
                    SqlParam::Integer(limit as int),
                ],
            },
    {
        match before {
            Some(cursor) => {
                let mut params: Vec<SqlValue> = Vec::new();
                params.push(text(user1));
                params.push(text(user2));
                params.push(text(cursor));
                params.push(SqlValue::Integer(limit as i64));
                let statement = Statement { sql: String::from_str(GET_MESSAGES_BEFORE_SQL), params };
                assert(statement.bound() =~= seq![
                    SqlParam::Text(user1@),
                    SqlParam::Text(user2@),
                    SqlParam::Text(cursor@),
                    SqlParam::Integer(limit as int),
                ]);
                statement
            },
            None => Database::get_messages_between(user1, user2, limit),
        }
    }

    /// Deletes a group with its messages and its members: three statements,
    /// to be run in this order.
    pub fn delete_group(group_id: &str) -> (statements: Vec<Statement>)
        ensures
            statements@.len() == 3,
            statements@[0].sql@ == DELETE_GROUP_MESSAGES_SQL@,
            statements@[1].sql@ == DELETE_GROUP_MEMBERS_SQL@,
            statements@[2].sql@ == DELETE_GROUP_SQL@,
            forall|k: int|
                0 <= k < 3 ==> (#[trigger] statements@[k]).bound() == seq![
                    SqlParam::Text(group_id@),
                ],
    {
        let mut statements: Vec<Statement> = Vec::new();
        statements.push(Database::about(DELETE_GROUP_MESSAGES_SQL, group_id));
        statements.push(Database::about(DELETE_GROUP_MEMBERS_SQL, group_id));
        statements.push(Database::about(DELETE_GROUP_SQL, group_id));
        statements
    }

    fn about(sql: &'static str, id: &str) -> (statement: Statement)
        ensures
            statement.sql@ == sql@,
            statement.bound() == seq![SqlParam::Text(id@)],
    {
        let mut params: Vec<SqlValue> = Vec::new();
        params.push(text(id));
        let statement = Statement { sql: String::from_str(sql), params };
        assert(statement.bound() =~= seq![SqlParam::Text(id@)]);
        statement
    }

    /// Sets the avatar of a user, who is first stored under the name "Peer"
    /// if the store does not know it: two statements, to be run in this
    /// order.
    pub fn set_user_avatar(device_id: &str, avatar_url: &str, now: &str) -> (statements: Vec<
        Statement,
    >)
        ensures
            statements@.len() == 2,
            statements@[0].sql@ == ENSURE_USER_SQL@,
            statements@[0].bound() == seq![
                SqlParam::Text(device_id@),
                SqlParam::Text("Peer"@),
                SqlParam::Text(now@),
            ],
            statements@[1].sql@ == SET_USER_AVATAR_SQL@,
            statements@[1].bound() == seq![SqlParam::Text(avatar_url@), SqlParam::Text(device_id@)],
    {
        let mut first: Vec<SqlValue> = Vec::new();
        first.push(text(device_id));
        first.push(text("Peer"));
        first.push(text(now));
        let ensure = Statement { sql: String::from_str(ENSURE_USER_SQL), params: first };
        assert(ensure.bound() =~= seq![
            SqlParam::Text(device_id@),
            SqlParam::Text("Peer"@),
            SqlParam::Text(now@),
        ]);
        let mut second: Vec<SqlValue> = Vec::new();
        second.push(text(avatar_url));
        second.push(text(device_id));
        let set = Statement { sql: String::from_str(SET_USER_AVATAR_SQL), params: second };
        assert(set.bound() =~= seq![SqlParam::Text(avatar_url@), SqlParam::Text(device_id@)]);
        let mut statements: Vec<Statement> = Vec::new();
        statements.push(ensure);
        statements.push(set);
        statements
    }

    /// Asks for the messages between two users that carry media, newest
    /// first: those of the given type, which is bound as a value, or images
    /// and files where none is given.
    pub fn get_shared_media(user1: &str, user2: &str, media_type: Option<&str>) -> (statement:
        Statement)
        ensures
            match media_type {
                Some(kind) => statement.sql@ == SHARED_MEDIA_OF_TYPE_SQL@ && statement.bound()
                    == seq![
                    SqlParam::Text(user1@),
                    SqlParam::Text(user2@),
                    SqlParam::Text(kind@),
                ],
                None => statement.sql@ == SHARED_MEDIA_SQL@ && statement.bound() == seq![
                    SqlParam::Text(user1@),
                    SqlParam::Text(user2@),
                ],
            },
    {
        let mut params: Vec<SqlValue> = Vec::new();
        params.push(text(user1));
        params.push(text(user2));
        match media_type {
            Some(kind) => {
                params.push(text(kind));
                let statement = Statement { sql: String::from_str(SHARED_MEDIA_OF_TYPE_SQL), params };
                assert(statement.bound() =~= seq![
                    SqlParam::Text(user1@),
                    SqlParam::Text(user2@),
                    SqlParam::Text(kind@),
                ]);
                statement
            },
            None => {
                let statement = Statement { sql: String::from_str(SHARED_MEDIA_SQL), params };
                assert(statement.bound() =~= seq![SqlParam::Text(user1@), SqlParam::Text(user2@)]);
                statement
            },
        }
    }

    /// The statements that bring the schema up to date, in order: settings
    /// of the engine, the tables, two columns that older stores lack, and
    /// the indices. Only the adding of the two columns may fail.
    pub fn run_migrations() -> (steps: Vec<MigrationStep>)
        ensures
            steps@.len() == 20,
            forall|k: int| 0 <= k < 20 ==> (#[trigger] steps@[k]).tolerated == (k == 2 || k == 3),
            steps@[0].sql@ == PRAGMAS_SQL@,
            steps@[1].sql@ == CREATE_USERS_SQL@,
            steps@[2].sql@ == ADD_BIO_SQL@,
            steps@[3].sql@ == ADD_DESIGNATION_SQL@,
            steps@[4].sql@ == CREATE_MESSAGES_SQL@,
            steps@[5].sql@ == CREATE_FILES_SQL@,
            steps@[6].sql@ == CREATE_SETTINGS_SQL@,
            steps@[7].sql@ == CREATE_PEERS_SQL@,
            steps@[8].sql@ == CREATE_NOTES_SQL@,
            steps@[9].sql@ == CREATE_GROUPS_SQL@,
            steps@[10].sql@ == CREATE_GROUP_MEMBERS_SQL@,
            steps@[11].sql@ == CREATE_GROUP_MESSAGES_SQL@,
            steps@[12].sql@ == INDEX_MESSAGE_SENDER_SQL@,
            steps@[13].sql@ == INDEX_MESSAGE_RECEIVER_SQL@,
            steps@[14].sql@ == INDEX_MESSAGE_CREATED_SQL@,
            steps@[15].sql@ == INDEX_CONVERSATION_SQL@,
            steps@[16].sql@ == INDEX_UNREAD_SQL@,
            steps@[17].sql@ == INDEX_NOTES_SQL@,
            steps@[18].sql@ == INDEX_GROUP_MESSAGES_SQL@,
            steps@[19].sql@ == INDEX_GROUP_MEMBERS_SQL@,
    {
        let mut steps: Vec<MigrationStep> = Vec::new();
        steps.push(MigrationStep { sql: PRAGMAS_SQL, tolerated: false });
        steps.push(MigrationStep { sql: CREATE_USERS_SQL, tolerated: false });
        steps.push(MigrationStep { sql: ADD_BIO_SQL, tolerated: true });
        steps.push(MigrationStep { sql: ADD_DESIGNATION_SQL, tolerated: true });
        steps.push(MigrationStep { sql: CREATE_MESSAGES_SQL, tolerated: false });
        steps.push(MigrationStep { sql: CREATE_FILES_SQL, tolerated: false });
        steps.push(MigrationStep { sql: CREATE_SETTINGS_SQL, tolerated: false });
        steps.push(MigrationStep { sql: CREATE_PEERS_SQL, tolerated: false });
        steps.push(MigrationStep { sql: CREATE_NOTES_SQL, tolerated: false });
        steps.push(MigrationStep { sql: CREATE_GROUPS_SQL, tolerated: false });
        steps.push(MigrationStep { sql: CREATE_GROUP_MEMBERS_SQL, tolerated: false });
        steps.push(MigrationStep { sql: CREATE_GROUP_MESSAGES_SQL, tolerated: false });
        steps.push(MigrationStep { sql: INDEX_MESSAGE_SENDER_SQL, tolerated: false });
        steps.push(MigrationStep { sql: INDEX_MESSAGE_RECEIVER_SQL, tolerated: false });
        steps.push(MigrationStep { sql: INDEX_MESSAGE_CREATED_SQL, tolerated: false });
        steps.push(MigrationStep { sql: INDEX_CONVERSATION_SQL, tolerated: false });
        steps.push(MigrationStep { sql: INDEX_UNREAD_SQL, tolerated: false });
        steps.push(MigrationStep { sql: INDEX_NOTES_SQL, tolerated: false });
        steps.push(MigrationStep { sql: INDEX_GROUP_MESSAGES_SQL, tolerated: false });
        steps.push(MigrationStep { sql: INDEX_GROUP_MEMBERS_SQL, tolerated: false });
        steps
    }

    /// Reads the answer to a count: one 32-bit integer.
    pub fn row_to_count(row: &Vec<SqlValue>) -> (count: Option<i32>)
        ensures
            match count {
                Some(n) => small_integer_at(bound_row(row@), 0) == Some(n as int),
                None => small_integer_at(bound_row(row@), 0) is None,
            },
    {
        column_small_integer(row, 0)
    }

    /// Reads the value of a setting from the rows that the question for it
    /// brought: no row means that the key has no value, which is no error.
    pub fn setting_value(rows: &Vec<Vec<SqlValue>>) -> (value: Result<Option<String>, StoreError>)
        ensures
            if rows@.len() == 0 {
                value == Ok::<Option<String>, StoreError>(None)
            } else {
                match text_at(bound_row(rows@[0]@), 0) {
                    Some(s) => value matches Ok(Some(v)) && v@ == s,
                    None => value == Err::<Option<String>, StoreError>(StoreError::InvalidRow),
                }
            },
    {
        if rows.len() == 0 {
            return Ok(None);
        }
        match column_text(&rows[0], 0) {
            Some(v) => Ok(Some(v)),
            None => Err(StoreError::InvalidRow),
        }
    }

    /// Reads the first of the rows that a question for one row brought: no
    /// row means that there is none of that identifier, which is no error.
    pub fn first_row(rows: &Vec<Vec<SqlValue>>) -> (row: Option<&Vec<SqlValue>>)
        ensures
            match row {
                Some(r) => rows@.len() > 0 && *r == rows@[0],
                None => rows@.len() == 0,
            },
    {
        if rows.len() == 0 {
            None
        } else {
            Some(&rows[0])
        }
    }

    /// Reads a row of cached peers: identifier, name, address and port.
    pub fn row_to_cached_peer(row: &Vec<SqlValue>) -> (decoded: Option<(String, String, String, i32)>)
        ensures
            match decoded {
                Some(peer) => {
                    &&& text_at(bound_row(row@), 0) == Some(peer.0@)
                    &&& text_at(bound_row(row@), 1) == Some(peer.1@)
                    &&& text_at(bound_row(row@), 2) == Some(peer.2@)
                    &&& small_integer_at(bound_row(row@), 3) == Some(peer.3 as int)
                },
                None => {
                    ||| text_at(bound_row(row@), 0) is None
                    ||| text_at(bound_row(row@), 1) is None
                    ||| text_at(bound_row(row@), 2) is None
                    ||| small_integer_at(bound_row(row@), 3) is None
                },
            },
    {
        let device_id = match column_text(row, 0) {
            Some(v) => v,
            None => {
                return None;
            },
        };
        let username = match column_text(row, 1) {
            Some(v) => v,
            None => {
                return None;
            },
        };
        let ip = match column_text(row, 2) {
            Some(v) => v,
            None => {
                return None;
            },
        };
        let port = match column_small_integer(row, 3) {
            Some(v) => v,
            None => {
                return None;
            },
        };
        Some((device_id, username, ip, port))
    }

    /// Reads a row of users. A column of another kind than expected, or a
    /// row that is too short, gives nothing.
    pub fn row_to_user(row: &Vec<SqlValue>) -> (decoded: Option<User>)
        ensures
            match decoded {
                Some(decoded) => {
                    &&& text_at(bound_row(row@), 0) == Some(decoded.id@)
                    &&& text_at(bound_row(row@), 1) == Some(decoded.username@)
                    &&& text_at(bound_row(row@), 2) == Some(decoded.device_id@)
                    &&& optional_text_at(bound_row(row@), 3) == Some(optional_view(decoded.public_key))
                    &&& optional_text_at(bound_row(row@), 4) == Some(optional_view(decoded.avatar_path))
                    &&& optional_text_at(bound_row(row@), 5) == Some(optional_view(decoded.bio))
                    &&& optional_text_at(bound_row(row@), 6) == Some(optional_view(decoded.designation))
                    &&& optional_text_at(bound_row(row@), 7) == Some(optional_view(decoded.last_seen))
                    &&& flag_at(bound_row(row@), 8) == Some(decoded.is_online)
                    &&& text_at(bound_row(row@), 9) == Some(decoded.created_at@)
                },
                None => {
                    ||| text_at(bound_row(row@), 0) is None
                    ||| text_at(bound_row(row@), 1) is None
                    ||| text_at(bound_row(row@), 2) is None
                    ||| optional_text_at(bound_row(row@), 3) is None
                    ||| optional_text_at(bound_row(row@), 4) is None
                    ||| optional_text_at(bound_row(row@), 5) is None
                    ||| optional_text_at(bound_row(row@), 6) is None
                    ||| optional_text_at(bound_row(row@), 7) is None
                    ||| flag_at(bound_row(row@), 8) is None
                    ||| text_at(bound_row(row@), 9) is None
                },
            },
    {
        let id = match column_text(row, 0) {
            Some(v) => v,
            None => {
                return None;
            },
        };
        let username = match column_text(row, 1) {
            Some(v) => v,
            None => {
                return None;
            },
        };
        let device_id = match column_text(row, 2) {
            Some(v) => v,
            None => {
                return None;
            },
        };
        let public_key = match column_optional_text(row, 3) {
            Some(v) => v,
            None => {
                return None;
            },
        };
        let avatar_path = match column_optional_text(row, 4) {
            Some(v) => v,
            None => {
                return None;
            },
        };
        let bio = match column_optional_text(row, 5) {
            Some(v) => v,
            None => {
                return None;
            },
        };
        let designation = match column_optional_text(row, 6) {
            Some(v) => v,
            None => {
                return None;
            },
        };
        let last_seen = match column_optional_text(row, 7) {
            Some(v) => v,
            None => {
                return None;
            },
        };
        let is_online = match column_flag(row, 8) {
            Some(v) => v,
            None => {
                return None;
            },
        };
        let created_at = match column_text(row, 9) {
            Some(v) => v,
            None => {
                return None;
            },
        };
        Some(User { id, username, device_id, public_key, avatar_path, bio, designation, last_seen, is_online, created_at })
    }

    /// Reads a row of messages. A column of another kind than expected, or a
    /// row that is too short, gives nothing.
    pub fn row_to_message(row: &Vec<SqlValue>) -> (decoded: Option<Message>)
        ensures
            match decoded {
                Some(decoded) => {
                    &&& text_at(bound_row(row@), 0) == Some(decoded.id@)
                    &&& text_at(bound_row(row@), 1) == Some(decoded.sender_id@)
                    &&& text_at(bound_row(row@), 2) == Some(decoded.receiver_id@)
                    &&& text_at(bound_row(row@), 3) == Some(decoded.content@)
                    &&& text_at(bound_row(row@), 4) == Some(decoded.message_type@)
                    &&& optional_text_at(bound_row(row@), 5) == Some(optional_view(decoded.file_path))
                    &&& flag_at(bound_row(row@), 6) == Some(decoded.is_read)
                    &&& flag_at(bound_row(row@), 7) == Some(decoded.is_delivered)
                    &&& text_at(bound_row(row@), 8) == Some(decoded.created_at@)
                },
                None => {
                    ||| text_at(bound_row(row@), 0) is None
                    ||| text_at(bound_row(row@), 1) is None
                    ||| text_at(bound_row(row@), 2) is None
                    ||| text_at(bound_row(row@), 3) is None
                    ||| text_at(bound_row(row@), 4) is None
                    ||| optional_text_at(bound_row(row@), 5) is None
                    ||| flag_at(bound_row(row@), 6) is None
                    ||| flag_at(bound_row(row@), 7) is None
                    ||| text_at(bound_row(row@), 8) is None
                },
            },
    {
        let id = match column_text(row, 0) {
            Some(v) => v,
            None => {
                return None;
            },
        };
        let sender_id = match column_text(row, 1) {
            Some(v) => v,
            None => {
                return None;
            },
        };
        let receiver_id = match column_text(row, 2) {
            Some(v) => v,
            None => {
                return None;
            },
        };
        let content = match column_text(row, 3) {
            Some(v) => v,
            None => {
                return None;
            },
        };
        let message_type = match column_text(row, 4) {
            Some(v) => v,
            None => {
                return None;
            },
        };
        let file_path = match column_optional_text(row, 5) {
            Some(v) => v,
            None => {
                return None;
            },
        };
        let is_read = match column_flag(row, 6) {
            Some(v) => v,
            None => {
                return None;
            },
        };
        let is_delivered = match column_flag(row, 7) {
            Some(v) => v,
            None => {
                return None;
            },
        };
        let created_at = match column_text(row, 8) {
            Some(v) => v,
            None => {
                return None;
            },
        };
        Some(Message { id, sender_id, receiver_id, content, message_type, file_path, is_read, is_delivered, created_at })
    }

    /// Reads a row of files. A column of another kind than expected, or a
    /// row that is too short, gives nothing.
    pub fn row_to_file_record(row: &Vec<SqlValue>) -> (decoded: Option<FileRecord>)
        ensures
            match decoded {
                Some(decoded) => {
                    &&& text_at(bound_row(row@), 0) == Some(decoded.id@)
                    &&& optional_text_at(bound_row(row@), 1) == Some(optional_view(decoded.message_id))
                    &&& text_at(bound_row(row@), 2) == Some(decoded.sender_id@)
                    &&& text_at(bound_row(row@), 3) == Some(decoded.receiver_id@)
                    &&& text_at(bound_row(row@), 4) == Some(decoded.file_name@)
                    &&& text_at(bound_row(row@), 5) == Some(decoded.file_path@)
                    &&& integer_at(bound_row(row@), 6) == Some(decoded.file_size as int)
                    &&& text_at(bound_row(row@), 7) == Some(decoded.file_type@)
                    &&& text_at(bound_row(row@), 8) == Some(decoded.checksum@)
                    &&& flag_at(bound_row(row@), 9) == Some(decoded.is_complete)
                    &&& text_at(bound_row(row@), 10) == Some(decoded.created_at@)
                },
                None => {
                    ||| text_at(bound_row(row@), 0) is None
                    ||| optional_text_at(bound_row(row@), 1) is None
                    ||| text_at(bound_row(row@), 2) is None
                    ||| text_at(bound_row(row@), 3) is None
                    ||| text_at(bound_row(row@), 4) is None
                    ||| text_at(bound_row(row@), 5) is None
                    ||| integer_at(bound_row(row@), 6) is None
                    ||| text_at(bound_row(row@), 7) is None
                    ||| text_at(bound_row(row@), 8) is None
                    ||| flag_at(bound_row(row@), 9) is None
                    ||| text_at(bound_row(row@), 10) is None
                },
            },
    {
        let id = match column_text(row, 0) {
            Some(v) => v,
            None => {
                return None;
            },
        };
        let message_id = match column_optional_text(row, 1) {
            Some(v) => v,
            None => {
                return None;
            },
        };
        let sender_id = match column_text(row, 2) {
            Some(v) => v,
            None => {
                return None;
            },
        };
        let receiver_id = match column_text(row, 3) {
            Some(v) => v,
            None => {
                return None;
            },
        };
        let file_name = match column_text(row, 4) {
            Some(v) => v,
            None => {
                return None;
            },
        };
        let file_path = match column_text(row, 5) {
            Some(v) => v,
            None => {
                return None;
            },
        };
        let file_size = match column_integer(row, 6) {
            Some(v) => v,
            None => {
                return None;
            },
        };
        let file_type = match column_text(row, 7) {
            Some(v) => v,
            None => {
                return None;
            },
        };
        let checksum = match column_text(row, 8) {
            Some(v) => v,
            None => {
                return None;
            },
        };
        let is_complete = match column_flag(row, 9) {
            Some(v) => v,
            None => {
                return None;
            },
        };
        let created_at = match column_text(row, 10) {
            Some(v) => v,
            None => {
                return None;
            },
        };
        Some(FileRecord { id, message_id, sender_id, receiver_id, file_name, file_path, file_size, file_type, checksum, is_complete, created_at })
    }

    /// Reads a row of settings. A column of another kind than expected, or a
    /// row that is too short, gives nothing.
    pub fn row_to_settings(row: &Vec<SqlValue>) -> (decoded: Option<Settings>)
        ensures
            match decoded {
                Some(decoded) => {
                    &&& text_at(bound_row(row@), 0) == Some(decoded.key@)
                    &&& text_at(bound_row(row@), 1) == Some(decoded.value@)
                },
                None => {
                    ||| text_at(bound_row(row@), 0) is None
                    ||| text_at(bound_row(row@), 1) is None
                },
            },
    {
        let key = match column_text(row, 0) {
            Some(v) => v,
            None => {
                return None;
            },
        };
        let value = match column_text(row, 1) {
            Some(v) => v,
            None => {
                return None;
            },
        };
        Some(Settings { key, value })
    }

    /// Reads a row of notes. A column of another kind than expected, or a
    /// row that is too short, gives nothing.
    pub fn row_to_note(row: &Vec<SqlValue>) -> (decoded: Option<Note>)
        ensures
            match decoded {
                Some(decoded) => {
                    &&& text_at(bound_row(row@), 0) == Some(decoded.id@)
                    &&& text_at(bound_row(row@), 1) == Some(decoded.title@)
                    &&& text_at(bound_row(row@), 2) == Some(decoded.content@)
                    &&& text_at(bound_row(row@), 3) == Some(decoded.color@)
                    &&& flag_at(bound_row(row@), 4) == Some(decoded.pinned)
                    &&& optional_text_at(bound_row(row@), 5) == Some(optional_view(decoded.category))
                    &&& text_at(bound_row(row@), 6) == Some(decoded.created_at@)
                    &&& text_at(bound_row(row@), 7) == Some(decoded.updated_at@)
                },
                None => {
                    ||| text_at(bound_row(row@), 0) is None
                    ||| text_at(bound_row(row@), 1) is None
                    ||| text_at(bound_row(row@), 2) is None
                    ||| text_at(bound_row(row@), 3) is None
                    ||| flag_at(bound_row(row@), 4) is None
                    ||| optional_text_at(bound_row(row@), 5) is None
                    ||| text_at(bound_row(row@), 6) is None
                    ||| text_at(bound_row(row@), 7) is None
                },
            },
    {
        let id = match column_text(row, 0) {
            Some(v) => v,
            None => {
                return None;
            },
        };
        let title = match column_text(row, 1) {
            Some(v) => v,
            None => {
                return None;
            },
        };
        let content = match column_text(row, 2) {
            Some(v) => v,
            None => {
                return None;
            },
        };
        let color = match column_text(row, 3) {
            Some(v) => v,
            None => {
                return None;
            },
        };
        let pinned = match column_flag(row, 4) {
            Some(v) => v,
            None => {
                return None;
            },
        };
        let category = match column_optional_text(row, 5) {
            Some(v) => v,
            None => {
                return None;
            },
        };
        let created_at = match column_text(row, 6) {
            Some(v) => v,
            None => {
                return None;
            },
        };
        let updated_at = match column_text(row, 7) {
            Some(v) => v,
            None => {
                return None;
            },
        };
        Some(Note { id, title, content, color, pinned, category, created_at, updated_at })
    }

    /// Reads a row of groups. A column of another kind than expected, or a
    /// row that is too short, gives nothing.
    pub fn row_to_group(row: &Vec<SqlValue>) -> (decoded: Option<Group>)
        ensures
            match decoded {
                Some(decoded) => {
                    &&& text_at(bound_row(row@), 0) == Some(decoded.id@)
                    &&& text_at(bound_row(row@), 1) == Some(decoded.name@)
                    &&& text_at(bound_row(row@), 2) == Some(decoded.created_by@)
                    &&& optional_text_at(bound_row(row@), 3) == Some(optional_view(decoded.avatar_color))
                    &&& text_at(bound_row(row@), 4) == Some(decoded.created_at@)
                },
                None => {
                    ||| text_at(bound_row(row@), 0) is None
                    ||| text_at(bound_row(row@), 1) is None
                    ||| text_at(bound_row(row@), 2) is None
                    ||| optional_text_at(bound_row(row@), 3) is None
                    ||| text_at(bound_row(row@), 4) is None
                },
            },
    {
        let id = match column_text(row, 0) {
            Some(v) => v,
            None => {
                return None;
            },
        };
        let name = match column_text(row, 1) {
            Some(v) => v,
            None => {
                return None;
            },
        };
        let created_by = match column_text(row, 2) {
            Some(v) => v,
            None => {
                return None;
            },
        };
        let avatar_color = match column_optional_text(row, 3) {
            Some(v) => v,
            None => {
                return None;
            },
        };
        let created_at = match column_text(row, 4) {
            Some(v) => v,
            None => {
                return None;
            },
        };
        Some(Group { id, name, created_by, avatar_color, created_at })
    }

    /// Reads a row of group members. A column of another kind than expected, or a
    /// row that is too short, gives nothing.
    pub fn row_to_group_member(row: &Vec<SqlValue>) -> (decoded: Option<GroupMember>)
        ensures
            match decoded {
                Some(decoded) => {
                    &&& text_at(bound_row(row@), 0) == Some(decoded.group_id@)
                    &&& text_at(bound_row(row@), 1) == Some(decoded.user_id@)
                    &&& text_at(bound_row(row@), 2) == Some(decoded.username@)
                    &&& text_at(bound_row(row@), 3) == Some(decoded.role@)
                    &&& text_at(bound_row(row@), 4) == Some(decoded.joined_at@)
                },
                None => {
                    ||| text_at(bound_row(row@), 0) is None
                    ||| text_at(bound_row(row@), 1) is None
                    ||| text_at(bound_row(row@), 2) is None
                    ||| text_at(bound_row(row@), 3) is None
                    ||| text_at(bound_row(row@), 4) is None
                },
            },
    {
        let group_id = match column_text(row, 0) {
            Some(v) => v,
            None => {
                return None;
            },
        };
        let user_id = match column_text(row, 1) {
            Some(v) => v,
            None => {
                return None;
            },
        };
        let username = match column_text(row, 2) {
            Some(v) => v,
            None => {
                return None;
            },
        };
        let role = match column_text(row, 3) {
            Some(v) => v,
            None => {
                return None;
            },
        };
        let joined_at = match column_text(row, 4) {
            Some(v) => v,
            None => {
                return None;
            },
        };
        Some(GroupMember { group_id, user_id, username, role, joined_at })
    }

    /// Reads a row of group messages. A column of another kind than expected, or a
    /// row that is too short, gives nothing.
    pub fn row_to_group_message(row: &Vec<SqlValue>) -> (decoded: Option<GroupMessage>)
        ensures
            match decoded {
                Some(decoded) => {
                    &&& text_at(bound_row(row@), 0) == Some(decoded.id@)
                    &&& text_at(bound_row(row@), 1) == Some(decoded.group_id@)
                    &&& text_at(bound_row(row@), 2) == Some(decoded.sender_id@)
                    &&& text_at(bound_row(row@), 3) == Some(decoded.sender_name@)
                    &&& text_at(bound_row(row@), 4) == Some(decoded.content@)
                    &&& text_at(bound_row(row@), 5) == Some(decoded.message_type@)
                    &&& text_at(bound_row(row@), 6) == Some(decoded.created_at@)
                },
                None => {
                    ||| text_at(bound_row(row@), 0) is None
                    ||| text_at(bound_row(row@), 1) is None
                    ||| text_at(bound_row(row@), 2) is None
                    ||| text_at(bound_row(row@), 3) is None
                    ||| text_at(bound_row(row@), 4) is None
                    ||| text_at(bound_row(row@), 5) is None
                    ||| text_at(bound_row(row@), 6) is None
                },
            },
    {
        let id = match column_text(row, 0) {
            Some(v) => v,
            None => {
                return None;
            },
        };
        let group_id = match column_text(row, 1) {
            Some(v) => v,
            None => {
                return None;
            },
        };
        let sender_id = match column_text(row, 2) {
            Some(v) => v,
            None => {
                return None;
            },
        };
        let sender_name = match column_text(row, 3) {
            Some(v) => v,
            None => {
                return None;
            },
        };
        let content = match column_text(row, 4) {
            Some(v) => v,
            None => {
                return None;
            },
        };
        let message_type = match column_text(row, 5) {
            Some(v) => v,
            None => {
                return None;
            },
        };
        let created_at = match column_text(row, 6) {
            Some(v) => v,
            None => {
                return None;
            },
        };
        Some(GroupMessage { id, group_id, sender_id, sender_name, content, message_type, created_at })
    }

    /// Reads a row of latest messages. A column of another kind than expected, or a
    /// row that is too short, gives nothing.
    pub fn row_to_last_message(row: &Vec<SqlValue>) -> (decoded: Option<LastMessageInfo>)
        ensures
            match decoded {
                Some(decoded) => {
                    &&& text_at(bound_row(row@), 0) == Some(decoded.peer_id@)
                    &&& text_at(bound_row(row@), 1) == Some(decoded.content@)
                    &&& text_at(bound_row(row@), 2) == Some(decoded.created_at@)
                    &&& flag_at(bound_row(row@), 3) == Some(decoded.is_from_me)
                },
                None => {
                    ||| text_at(bound_row(row@), 0) is None
                    ||| text_at(bound_row(row@), 1) is None
                    ||| text_at(bound_row(row@), 2) is None
                    ||| flag_at(bound_row(row@), 3) is None
                },
            },
    {
        let peer_id = match column_text(row, 0) {
            Some(v) => v,
            None => {
                return None;
            },
        };
        let content = match column_text(row, 1) {
            Some(v) => v,
            None => {
                return None;
            },
        };
        let created_at = match column_text(row, 2) {
            Some(v) => v,
            None => {
                return None;
            },
        };
        let is_from_me = match column_flag(row, 3) {
            Some(v) => v,
            None => {
                return None;
            },
        };
        Some(LastMessageInfo { peer_id, content, created_at, is_from_me })
    }
}

/// `Uuid::new_v4` of `uuid`, rendered by its `to_string`: a fresh random
/// identifier in the hyphenated form, which has 36 characters. Nothing else
/// is claimed of it.
#[verifier::external_body]
pub fn generate_id() -> (id: String)
    ensures
        id@.len() == 36,
{
    uuid::Uuid::new_v4().to_string()
}

/// `Utc::now` of `chrono`, rendered by `to_rfc3339`: the time of the call.
/// Nothing is claimed of it.
#[verifier::external_body]
pub fn now() -> (timestamp: String) {
    chrono::Utc::now().to_rfc3339()
}

} // verus!
